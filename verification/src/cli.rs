//! The already-resolved command line inputs the embedding program hands to
//! the core: where the configuration lives and which port to serve on.

use vstd::prelude::*;

verus! {

/// Resolved command line arguments.
pub struct Args {
    /// Path of the TOML configuration file.
    pub config_file: String,
    /// HTTP port to listen on.
    pub http_port: u16,
}

} // verus!
