//! Resolution of the runtime settings from optional environment values,
//! with the documented defaults.

use vstd::prelude::*;
use vstd::string::StringExecFns;
use crate::text::str_eq;

verus! {

/// The resolved runtime settings: where to bind and how to reach and time
/// out against the broker. Timeouts are kept as the decimal strings the
/// broker client configuration takes.
pub struct Settings {
    pub host: String,
    pub port: String,
    pub bootstrap_servers: String,
    pub message_timeout_ms: String,
    pub delivery_timeout_ms: String,
    pub request_timeout_ms: String,
    pub socket_timeout_ms: String,
}

/// The view of an optional environment value.
pub open spec fn given(o: Option<String>) -> Option<Seq<char>> {
    match o {
        Some(s) => Some(s@),
        None => None,
    }
}

/// The value itself when present, the default otherwise.
pub open spec fn defaulted(v: Option<Seq<char>>, d: Seq<char>) -> Seq<char> {
    match v {
        Some(x) => x,
        None => d,
    }
}

/// The bind host: as given, else the wildcard address when public access
/// is asked for, else loopback.
pub open spec fn resolved_host(host: Option<Seq<char>>, public_access: Option<Seq<char>>) -> Seq<
    char,
> {
    match host {
        Some(h) => h,
        None => if public_access == Some("true"@) {
            "0.0.0.0"@
        } else {
            "127.0.0.1"@
        },
    }
}

/// Take the value when present, else the given default literal.
fn or_default(v: Option<String>, d: &str) -> (r: String)
    ensures
        r@ == defaulted(given(v), d@),
{
    match v {
        Some(x) => x,
        None => String::from_str(d),
    }
}

impl Settings {
    /// Resolve every setting from its optional environment value, with the
    /// documented defaults: loopback host (wildcard under public access),
    /// port 8080, broker list localhost:9093, and 5000 ms for each timeout.
    /// Absence of a value is never an error.
    pub fn resolve(
        host: Option<String>,
        port: Option<String>,
        public_access: Option<String>,
        bootstrap_servers: Option<String>,
        message_timeout_ms: Option<String>,
        delivery_timeout_ms: Option<String>,
        request_timeout_ms: Option<String>,
        socket_timeout_ms: Option<String>,
    ) -> (s: Settings)
        ensures
            s.host@ == resolved_host(given(host), given(public_access)),
            s.port@ == defaulted(given(port), "8080"@),
            s.bootstrap_servers@ == defaulted(given(bootstrap_servers), "localhost:9093"@),
            s.message_timeout_ms@ == defaulted(given(message_timeout_ms), "5000"@),
            s.delivery_timeout_ms@ == defaulted(given(delivery_timeout_ms), "5000"@),
            s.request_timeout_ms@ == defaulted(given(request_timeout_ms), "5000"@),
            s.socket_timeout_ms@ == defaulted(given(socket_timeout_ms), "5000"@),
    {
        let host = match host {
            Some(h) => h,
            None => {
                let public = match public_access {
                    Some(p) => str_eq(p.as_str(), "true"),
                    None => false,
                };
                if public {
                    String::from_str("0.0.0.0")
                } else {
                    String::from_str("127.0.0.1")
                }
            },
        };
        Settings {
            host,
            port: or_default(port, "8080"),
            bootstrap_servers: or_default(bootstrap_servers, "localhost:9093"),
            message_timeout_ms: or_default(message_timeout_ms, "5000"),
            delivery_timeout_ms: or_default(delivery_timeout_ms, "5000"),
            request_timeout_ms: or_default(request_timeout_ms, "5000"),
            socket_timeout_ms: or_default(socket_timeout_ms, "5000"),
        }
    }

    /// The address the listener binds: `host:port`.
    pub fn bind_addr(&self) -> (r: String)
        ensures
            r@ == self.host@ + ":"@ + self.port@,
    {
        let mut r = self.host.clone();
        r.append(":");
        r.append(self.port.as_str());
        r
    }
}

} // verus!
