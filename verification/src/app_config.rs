//! Configuration of the stand-alone HTTP server binary.

use vstd::prelude::*;

pub use crate::config::{ConfigSource, LoggingConfig};
use crate::config::{DEFAULT_HOST, DEFAULT_PORT};

verus! {

/// Where the server listens and how it logs.
#[derive(Debug, Clone)]
pub struct AppConfig {
    pub host: String,
    pub port: u16,
    pub logging: LoggingConfig,
}

impl AppConfig {
    /// The configuration that holds where neither the file nor the
    /// environment says otherwise.
    pub fn with_defaults() -> (c: Self)
        ensures
            c.host@ == "127.0.0.1"@,
            c.port == 3000,
            !c.logging.human_readable,
    {
        proof { reveal_strlit("127.0.0.1"); }
        AppConfig {
            host: DEFAULT_HOST.to_owned(),
            port: DEFAULT_PORT,
            logging: LoggingConfig { human_readable: false },
        }
    }
}

} // verus!
