//! The model registry: where it is, its configuration records and its requests.
pub mod config;
pub mod endpoint;
pub mod json;
pub mod model_registry;

use crate::error::StackError;
use crate::text::{decimal, decimal_text, parse_unsigned, unsigned_value};
use vstd::prelude::*;
use vstd::string::*;

verus! {

/// Environment Variable for the ML FLow Host Address
pub const HOST_NAME_ENV_VAR: &'static str = "ML_FLOW_HOST";

/// Environment Variable for the ML FLow Serving Port
pub const HOST_PORT_ENV_VAR: &'static str = "ML_FLOW_PORT";

/// Where the registry is reached. It is made once, at start, and handed to
/// whatever needs it.
#[derive(Debug)]
pub struct MlflowSettings {
    /// Host name of the registry.
    pub host: String,
    /// Port that the registry serves on.
    pub port: usize,
    /// Host URL for any REST requests
    pub url: String,
}

/// The URL under which a registry on `host` and `port` takes requests.
pub open spec fn base_url(host: Seq<char>, port: nat) -> Seq<char> {
    "http://"@ + host + ":"@ + decimal_text(port)
}

/// The port that the text of the port variable stands for, if it is a
/// decimal number that the machine can hold.
pub open spec fn port_value(port: Seq<char>) -> Option<nat> {
    match unsigned_value(port) {
        Some(n) => if n <= usize::MAX {
            Some(n)
        } else {
            None
        },
        None => None,
    }
}

/// Makes the registry settings from the values of the host and port
/// variables. A port that is no number is refused.
pub fn init(host: &str, port: &str) -> (r: Result<MlflowSettings, StackError>)
    ensures
        match port_value(port@) {
            Some(n) => r matches Ok(settings) && settings.host@ == host@ && settings.port == n
                && settings.url@ == base_url(host@, n),
            None => r matches Err(StackError::ValidationError),
        },
{
    match parse_unsigned(port) {
        Some(n) => {
            let mut url = "http://".to_owned();
            url.append(host);
            url.append(":");
            url.append(decimal(n as u64).as_str());
            Ok(MlflowSettings { host: host.to_owned(), port: n, url })
        },
        None => Err(StackError::ValidationError),
    }
}

} // verus!
