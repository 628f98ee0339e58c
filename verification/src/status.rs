//! Classification of RPC status codes.
//!
//! Every failure coming back from the remote task-queue service carries a
//! gRPC status code. A fixed subset of those codes marks transient
//! conditions that the retry layer absorbs; every other code is terminal
//! and must surface to the caller unchanged.

use vstd::prelude::*;

verus! {

/// The gRPC status codes, as the remote service reports them.
///
/// The numeric wire values run from 0 (`Ok`) through 16 (`Unauthenticated`);
/// [`code_from_value`] maps a wire value to this enum.
#[derive(Clone, Copy, Debug, PartialEq, Eq, Structural)]
pub enum StatusCode {
    Okay,
    Cancelled,
    Unknown,
    InvalidArgument,
    DeadlineExceeded,
    NotFound,
    AlreadyExists,
    PermissionDenied,
    ResourceExhausted,
    FailedPrecondition,
    Aborted,
    OutOfRange,
    Unimplemented,
    Internal,
    Unavailable,
    DataLoss,
    Unauthenticated,
}

/// The fixed transient set: a failure with one of these codes may be retried;
/// a failure with any other code is terminal.
pub open spec fn spec_retryable(code: StatusCode) -> bool {
    ||| code == StatusCode::DataLoss
    ||| code == StatusCode::Internal
    ||| code == StatusCode::Unknown
    ||| code == StatusCode::ResourceExhausted
    ||| code == StatusCode::Aborted
    ||| code == StatusCode::OutOfRange
    ||| code == StatusCode::Unavailable
}

/// Decides whether a status code belongs to the retryable set.
pub fn is_retryable(code: StatusCode) -> (r: bool)
    ensures
        r == spec_retryable(code),
{
    match code {
        StatusCode::DataLoss => true,
        StatusCode::Internal => true,
        StatusCode::Unknown => true,
        StatusCode::ResourceExhausted => true,
        StatusCode::Aborted => true,
        StatusCode::OutOfRange => true,
        StatusCode::Unavailable => true,
        _ => false,
    }
}

/// The retryable codes as a list: seven entries, holding exactly the
/// codes that [`spec_retryable`] admits.
pub fn retryable_error_codes() -> (r: Vec<StatusCode>)
    ensures
        r@.len() == 7,
        forall|c: StatusCode| #[trigger] r@.contains(c) <==> spec_retryable(c),
{
    let codes = vec![
        StatusCode::DataLoss,
        StatusCode::Internal,
        StatusCode::Unknown,
        StatusCode::ResourceExhausted,
        StatusCode::Aborted,
        StatusCode::OutOfRange,
        StatusCode::Unavailable,
    ];
    proof {
        assert forall|c: StatusCode| #[trigger] codes@.contains(c) <==> spec_retryable(c) by {
            if spec_retryable(c) {
                if c == StatusCode::DataLoss {
                    assert(codes@[0] == c);
                } else if c == StatusCode::Internal {
                    assert(codes@[1] == c);
                } else if c == StatusCode::Unknown {
                    assert(codes@[2] == c);
                } else if c == StatusCode::ResourceExhausted {
                    assert(codes@[3] == c);
                } else if c == StatusCode::Aborted {
                    assert(codes@[4] == c);
                } else if c == StatusCode::OutOfRange {
                    assert(codes@[5] == c);
                } else {
                    assert(codes@[6] == c);
                }
            }
        }
    }
    codes
}

/// The numeric wire value of each status code, 0 through 16.
pub open spec fn spec_code_from_value(v: u32) -> StatusCode {
    if v == 0 {
        StatusCode::Okay
    } else if v == 1 {
        StatusCode::Cancelled
    } else if v == 2 {
        StatusCode::Unknown
    } else if v == 3 {
        StatusCode::InvalidArgument
    } else if v == 4 {
        StatusCode::DeadlineExceeded
    } else if v == 5 {
        StatusCode::NotFound
    } else if v == 6 {
        StatusCode::AlreadyExists
    } else if v == 7 {
        StatusCode::PermissionDenied
    } else if v == 8 {
        StatusCode::ResourceExhausted
    } else if v == 9 {
        StatusCode::FailedPrecondition
    } else if v == 10 {
        StatusCode::Aborted
    } else if v == 11 {
        StatusCode::OutOfRange
    } else if v == 12 {
        StatusCode::Unimplemented
    } else if v == 13 {
        StatusCode::Internal
    } else if v == 14 {
        StatusCode::Unavailable
    } else if v == 15 {
        StatusCode::DataLoss
    } else {
        StatusCode::Unauthenticated
    }
}

/// Maps a numeric wire value to its status code. Values above 16 do not
/// occur on the wire; they are read as `Unauthenticated` by the spec's
/// final arm, and [`status_code`] never produces them.
pub fn code_from_value(v: u32) -> (r: StatusCode)
    ensures
        r == spec_code_from_value(v),
{
    if v == 0 {
        StatusCode::Okay
    } else if v == 1 {
        StatusCode::Cancelled
    } else if v == 2 {
        StatusCode::Unknown
    } else if v == 3 {
        StatusCode::InvalidArgument
    } else if v == 4 {
        StatusCode::DeadlineExceeded
    } else if v == 5 {
        StatusCode::NotFound
    } else if v == 6 {
        StatusCode::AlreadyExists
    } else if v == 7 {
        StatusCode::PermissionDenied
    } else if v == 8 {
        StatusCode::ResourceExhausted
    } else if v == 9 {
        StatusCode::FailedPrecondition
    } else if v == 10 {
        StatusCode::Aborted
    } else if v == 11 {
        StatusCode::OutOfRange
    } else if v == 12 {
        StatusCode::Unimplemented
    } else if v == 13 {
        StatusCode::Internal
    } else if v == 14 {
        StatusCode::Unavailable
    } else if v == 15 {
        StatusCode::DataLoss
    } else {
        StatusCode::Unauthenticated
    }
}

/// A failure that must not be retried: its status code and the message the
/// service attached to it.
#[derive(Clone, Debug, PartialEq, Eq)]
pub struct TerminalError {
    pub code: StatusCode,
    pub message: String,
}

impl TerminalError {
    pub fn new(code: StatusCode, message: String) -> (r: TerminalError)
        ensures
            r.code == code,
            r.message == message,
    {
        TerminalError { code, message }
    }
}

#[verifier::external_type_specification]
#[verifier::external_body]
pub struct ExTonicStatus(tonic::Status);

/// Relies on `tonic::Status::code` and the declared discriminants of
/// `tonic::Code`: every gRPC status carries one of the seventeen codes,
/// whose numeric values run from 0 through 16.
#[verifier::external_body]
fn status_code_value(s: &tonic::Status) -> (r: u32)
    ensures
        r <= 16,
{
    s.code() as u32
}

/// Relies on `tonic::Status::message`, which hands back the message the
/// status was built with.
#[verifier::external_body]
fn status_message(s: &tonic::Status) -> (r: String)
{
    s.message().to_string()
}

/// Reads the status code of a transport-level failure. Whatever the
/// transport handed back, the result is one of the seventeen codes with a
/// wire value of at most 16.
pub fn status_code(s: &tonic::Status) -> (r: StatusCode)
    ensures
        exists|v: u32| v <= 16 && r == spec_code_from_value(v),
{
    let v = status_code_value(s);
    let r = code_from_value(v);
    proof {
        assert(v <= 16 && r == spec_code_from_value(v));
    }
    r
}

/// Turns a transport-level failure into the library's terminal error,
/// keeping its code and message. Classification of the code — retry or
/// surface — is the caller's step, through [`is_retryable`].
pub fn status_to_terminal_error(s: &tonic::Status) -> (r: TerminalError)
    ensures
        exists|v: u32| v <= 16 && r.code == spec_code_from_value(v),
{
    let code = status_code(s);
    let ghost v = choose|v: u32| v <= 16 && code == spec_code_from_value(v);
    let message = status_message(s);
    let r = TerminalError { code, message };
    proof {
        assert(v <= 16 && r.code == spec_code_from_value(v));
    }
    r
}

} // verus!
