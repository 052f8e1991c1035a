//! Process configuration for the backend client: a required credential,
//! a base URL with a fixed production default, and a log verbosity level
//! defaulting to `info`.

use vstd::prelude::*;

verus! {

/// Configuration consumed at construction of the router: the backend
/// credential, the backend base URL, and the log verbosity level.
pub struct Config {
    pub pinecone_api_key: String,
    pub pinecone_assistant_host: String,
    pub log_level: String,
}

/// The base URL used when none is configured.
pub open spec fn default_host_text() -> Seq<char> {
    "https://prod-1-data.ke.pinecone.io"@
}

/// The log verbosity used when none is configured.
pub open spec fn default_log_level_text() -> Seq<char> {
    "info"@
}

impl Config {
    /// Resolves a configuration: the credential is required, while the
    /// host and the log level fall back to their defaults when absent.
    pub fn new(api_key: String, host: Option<String>, log_level: Option<String>) -> (r: Config)
        ensures
            r.pinecone_api_key == api_key,
            match host {
                Some(h) => r.pinecone_assistant_host == h,
                None => r.pinecone_assistant_host@ == default_host_text(),
            },
            match log_level {
                Some(l) => r.log_level == l,
                None => r.log_level@ == default_log_level_text(),
            },
    {
        let pinecone_assistant_host = match host {
            Some(h) => h,
            None => String::from_str("https://prod-1-data.ke.pinecone.io"),
        };
        let log_level = match log_level {
            Some(l) => l,
            None => String::from_str("info"),
        };
        Config { pinecone_api_key: api_key, pinecone_assistant_host, log_level }
    }
}

} // verus!
