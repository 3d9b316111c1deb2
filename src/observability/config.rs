//! Collector configuration and the resource that describes this service.
use vstd::prelude::*;

use crate::text::same_text;

verus! {

/// Where telemetry goes and under which service name.
#[derive(Debug, Clone, PartialEq)]
pub struct OpenTelemetryConfig {
    pub opentelemetry_agent_host: String,
    pub opentelemetry_agent_port: String,
    pub service_name: String,
}

/// `value` when set, else `default`.
pub open spec fn or_default(value: Option<String>, default: Seq<char>) -> Seq<char> {
    match value {
        Some(v) => v@,
        None => default,
    }
}

fn take_or(value: Option<String>, default: &str) -> (r: String)
    ensures
        r@ == or_default(value, default@),
{
    match value {
        Some(v) => v,
        None => String::from_str(default),
    }
}

impl OpenTelemetryConfig {
    /// The configuration from the settings that are present: the collector at
    /// `http://localhost`, port `4317`, and the crate's name as service name
    /// stand in for those that are not.
    pub fn from_settings(host: Option<String>, port: Option<String>, service_name: Option<String>) -> (r: Self)
        ensures
            r.opentelemetry_agent_host@ == or_default(host, "http://localhost"@),
            r.opentelemetry_agent_port@ == or_default(port, "4317"@),
            r.service_name@ == or_default(service_name, "axum_graphql"@),
    {
        OpenTelemetryConfig {
            opentelemetry_agent_host: take_or(host, "http://localhost"),
            opentelemetry_agent_port: take_or(port, "4317"),
            service_name: take_or(service_name, "axum_graphql"),
        }
    }

    /// The trace collector's address, `host:port`.
    pub fn collector_endpoint(&self) -> (r: String)
        ensures
            r@ == self.opentelemetry_agent_host@ + ":"@ + self.opentelemetry_agent_port@,
    {
        let mut endpoint = self.opentelemetry_agent_host.clone();
        endpoint.append(":");
        endpoint.append(self.opentelemetry_agent_port.as_str());
        endpoint
    }
}

/// Reads the switch that turns telemetry export on. An absent switch means
/// off; `true` and `false` are the only values accepted, `None` marks any
/// other.
pub fn parse_enabled_flag(value: Option<&str>) -> (r: Option<bool>)
    ensures
        value is None ==> r == Some(false),
        value is Some ==> (r == Some(true) <==> value->0@ == "true"@),
        value is Some ==> (r == Some(false) <==> value->0@ == "false"@),
{
    match value {
        None => Some(false),
        Some(v) => {
            proof {
                reveal_strlit("true");
                reveal_strlit("false");
                assert("true"@.len() != "false"@.len());
            }
            if same_text(v, "true") {
                Some(true)
            } else if same_text(v, "false") {
                Some(false)
            } else {
                None
            }
        },
    }
}

/// The characters of a ULID's text form (Crockford's base 32).
pub open spec fn ulid_alphabet() -> Seq<char> {
    seq![
        '0', '1', '2', '3', '4', '5', '6', '7', '8', '9', 'A', 'B', 'C', 'D', 'E', 'F',
        'G', 'H', 'J', 'K', 'M', 'N', 'P', 'Q', 'R', 'S', 'T', 'V', 'W', 'X', 'Y', 'Z',
    ]
}

/// Text in the form of a ULID: 26 characters of Crockford's base 32.
pub open spec fn is_ulid_text(s: Seq<char>) -> bool {
    &&& s.len() == 26
    &&& forall|i: int| 0 <= i < s.len() ==> ulid_alphabet().contains(#[trigger] s[i])
}

/// Relies on `ulid::Ulid::new` for a fresh identifier and on `Ulid::to_string`,
/// which writes its 128 bits as 26 characters of Crockford's base 32.
#[verifier::external_body]
fn new_instance_id() -> (r: String)
    ensures
        is_ulid_text(r@),
{
    ulid::Ulid::new().to_string()
}

/// What the telemetry resource says of this process.
#[derive(Debug, Clone, PartialEq)]
pub struct ServiceResource {
    pub service_name: String,
    /// Distinguishes this process from other instances of the service.
    pub instance_id: String,
}

/// The resource for `config`, under a fresh instance identifier.
pub fn service_resource(config: &OpenTelemetryConfig) -> (r: ServiceResource)
    ensures
        r.service_name@ == config.service_name@,
        is_ulid_text(r.instance_id@),
{
    ServiceResource { service_name: config.service_name.clone(), instance_id: new_instance_id() }
}

} // verus!
