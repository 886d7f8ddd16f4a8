//! The command line of the controller.
use vstd::prelude::*;
use crate::config::loader::CliOverrides;

verus! {

/// The controller's command-line arguments.
#[derive(Debug, Clone)]
pub struct Cli {
    /// The configuration file.
    pub config: String,
    /// Host to bind the server to.
    pub host: Option<String>,
    pub port: Option<u16>,
    /// Request timeout in seconds.
    pub timeout: Option<u64>,
    /// Disable hardware features and run in mock mode.
    pub mock_mode: Option<bool>,
}

/// The configuration overrides that the arguments give.
pub fn create_cli_overrides(args: &Cli) -> (o: CliOverrides)
    ensures
        o.port == args.port,
        o.host == args.host,
        o.timeout == args.timeout,
        o.mock_mode == args.mock_mode,
{
    CliOverrides {
        port: args.port,
        host: args.host.clone(),
        timeout: args.timeout,
        mock_mode: args.mock_mode,
    }
}

} // verus!
