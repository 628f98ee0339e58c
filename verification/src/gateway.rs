//! Connection options for the remote gateway, as plain values.
//!
//! The transport itself — channels, TLS, the RPC surface — lives outside
//! this library; what the library fixes is which option values a test
//! client connects with. The host reads the environment, validates the
//! server address as a URL, and hands the plain strings in.

use vstd::prelude::*;
use vstd::string::StringExecFns;

verus! {

/// Options a client connects to the workflow service with.
#[derive(Clone, Debug, PartialEq, Eq)]
pub struct ServerGatewayOptions {
    pub namespace: String,
    pub identity: String,
    pub worker_binary_id: String,
    pub target_url: String,
    pub client_name: String,
    pub client_version: String,
}

/// Telemetry options of a test worker: where traces and metrics go, and
/// what is logged.
#[derive(Clone, Debug, PartialEq, Eq)]
pub struct TelemetryOptions {
    /// Collector to export traces and metrics to, when one is configured.
    pub otel_collector_url: Option<String>,
    /// Local port to serve metrics on for scraping, when one is
    /// configured.
    pub prometheus_export_port: Option<u16>,
    /// The tracing filter applied to the core's own spans.
    pub tracing_filter: String,
    /// Whether log records are forwarded to the embedding application at
    /// all; the test harness turns forwarding off.
    pub log_forwarding_off: bool,
}

/// Builds the gateway options the test client connects with:
/// the test namespace and fixed test identity around the given, already
/// validated server address.
pub fn get_integ_server_options(temporal_server_address: String) -> (r: ServerGatewayOptions)
    ensures
        r.namespace@ == "default"@,
        r.identity@ == "integ_tester"@,
        r.worker_binary_id@ == "fakebinaryid"@,
        r.target_url == temporal_server_address,
        r.client_name@ == "temporal-core"@,
        r.client_version@ == "0.1.0"@,
{
    ServerGatewayOptions {
        namespace: crate::commands::namespace(),
        identity: String::from_str("integ_tester"),
        worker_binary_id: String::from_str("fakebinaryid"),
        target_url: temporal_server_address,
        client_name: String::from_str("temporal-core"),
        client_version: String::from_str("0.1.0"),
    }
}

/// Builds the telemetry options of a test worker: export to the collector
/// and serve metrics only where configured, filter the core's spans at
/// the informational level, forward no logs.
pub fn get_integ_telem_options(otel_url: Option<String>, prom_port: Option<u16>) -> (r:
    TelemetryOptions)
    ensures
        r.otel_collector_url == otel_url,
        r.prometheus_export_port == prom_port,
        r.tracing_filter@ == "temporal_sdk_core=INFO"@,
        r.log_forwarding_off,
{
    TelemetryOptions {
        otel_collector_url: otel_url,
        prometheus_export_port: prom_port,
        tracing_filter: String::from_str("temporal_sdk_core=INFO"),
        log_forwarding_off: true,
    }
}

} // verus!
