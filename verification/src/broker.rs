//! The advisory startup connectivity check: classification of a metadata
//! query's outcome. No outcome is fatal — the report only tells the
//! operator what was found.

use vstd::prelude::*;

verus! {

/// One broker the cluster metadata names, for diagnostic output.
pub struct BrokerInfo {
    pub id: i32,
    pub host: String,
    pub port: i32,
}

/// What the startup connectivity check found. Every variant lets startup
/// proceed; the check is advisory only.
pub enum ConnectivityReport {
    /// Metadata came back naming at least one broker.
    Connected { brokers: Vec<BrokerInfo> },
    /// Metadata came back naming no broker: degraded but continuing.
    NoBrokers,
    /// The metadata query itself failed: degraded but continuing.
    Unreachable { error: String },
}

/// Classify the outcome of the metadata query: at least one broker means
/// connected, an empty broker list is the degraded state, and a failed
/// query carries the underlying error.
pub fn classify_connectivity(metadata: Result<Vec<BrokerInfo>, String>) -> (r: ConnectivityReport)
    ensures
        match metadata {
            Ok(bs) => if bs@.len() > 0 {
                r matches ConnectivityReport::Connected { brokers } && brokers@ == bs@
            } else {
                r is NoBrokers
            },
            Err(e) => r matches ConnectivityReport::Unreachable { error } && error@ == e@,
        },
{
    match metadata {
        Ok(brokers) => {
            if brokers.len() == 0 {
                ConnectivityReport::NoBrokers
            } else {
                ConnectivityReport::Connected { brokers }
            }
        },
        Err(error) => ConnectivityReport::Unreachable { error },
    }
}

} // verus!
