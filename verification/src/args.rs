//! The agent's configuration as the command line provides it.

use vstd::prelude::*;

verus! {

/// The command-line configuration of the agent: the server address, the
/// authentication token, and the log-verbosity switch.
#[derive(Clone, Debug)]
pub struct Args {
    /// Frontend server address.
    pub server: String,
    /// Authentication token sent with every report.
    pub password: String,
    /// Switch the log verbosity from info to debug.
    pub debug: bool,
}

/// Assemble the configuration from the parsed command-line values. The
/// parsing itself is plain argument plumbing and stays with the surrounding
/// program; the configuration the rest of the library sees is exactly what
/// arrived here.
pub fn init_args(server: String, password: String, debug: bool) -> (args: Args)
    ensures
        args.server@ == server@,
        args.password@ == password@,
        args.debug == debug,
{
    Args { server, password, debug }
}

} // verus!
