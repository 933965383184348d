//! The command line of the `scdsu` front end: what its arguments ask the program to run.

use vstd::prelude::*;

use crate::server::ServerConfig;

verus! {

/// Command-line arguments.
#[derive(Debug, Clone)]
pub struct Args {
    /// Run in debug mode: open the controller and dump raw IMU frames.
    pub debug: bool,
    /// UDP bind address for the CemuHook server.
    pub bind_addr: String,
    /// UDP port for the CemuHook server.
    pub port: u16,
    /// Invert the pitch axis
    pub invert_pitch: bool,
}

/// What the program runs.
#[derive(Debug)]
pub enum Plan {
    /// Dump frames to stdout; the program then exits with status 1.
    DebugDump,
    /// Run the server; the program exits with status 0 when it ends without error, 1 otherwise.
    Serve(ServerConfig),
}

/// Decide what the arguments ask for.
pub fn plan(args: Args) -> (p: Plan)
    ensures
        args.debug ==> p is DebugDump,
        !args.debug ==> (p matches Plan::Serve(c) && c.bind_addr@ == args.bind_addr@ && c.port
            == args.port && c.invert_y == args.invert_pitch),
{
    if args.debug {
        return Plan::DebugDump;
    }
    Plan::Serve(ServerConfig { bind_addr: args.bind_addr, port: args.port, invert_y: args.invert_pitch })
}

} // verus!
