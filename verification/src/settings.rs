//! The settings that the HTTP client is built from.

use vstd::prelude::*;
use vstd::string::StringExecFns;
use crate::dispatch::DEFAULT_REQUEST_TIMEOUT;

verus! {

/// How the HTTP client is to be built.
#[derive(Clone, Debug, PartialEq, Eq)]
pub struct HttpSettings {
    /// Accept any certificate that a server presents.
    pub disable_ssl_verification: bool,
    /// The proxy to send all requests through.
    pub proxy: Option<String>,
    /// The name that the client gives as its user agent.
    pub user_agent: Option<String>,
    /// The time a request may take, in nanoseconds.
    pub timeout: u64,
}

/// The user agent of a client whose settings name none.
pub open spec fn default_user_agent() -> Seq<char> {
    "matrix-rust-sdk"@
}

impl Default for HttpSettings {
    fn default() -> (settings: Self)
        ensures
            !settings.disable_ssl_verification,
            settings.proxy is None,
            settings.user_agent is None,
            settings.timeout == DEFAULT_REQUEST_TIMEOUT,
    {
        HttpSettings {
            disable_ssl_verification: false,
            proxy: None,
            user_agent: None,
            timeout: DEFAULT_REQUEST_TIMEOUT,
        }
    }
}

impl HttpSettings {
    /// The user agent that the client gives: the one that the settings
    /// name, or `matrix-rust-sdk`.
    pub fn effective_user_agent(&self) -> (agent: String)
        ensures
            agent@ == match self.user_agent {
                Some(name) => name@,
                None => default_user_agent(),
            },
    {
        match &self.user_agent {
            Some(name) => name.clone(),
            None => String::from_str("matrix-rust-sdk"),
        }
    }
}

} // verus!
