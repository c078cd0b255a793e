//! The command line of the harness, as plain values.

use vstd::prelude::*;
use crate::logging::LoggingFormat;
use crate::vsock::Socket;

verus! {

/// Operations of the API client.
pub enum ClientOperation {
    /// Ping the API server.
    Ping,
    /// Run the trick in a file on the server and print the report.
    Trick { trick: String },
}

/// Subcommands of the API.
pub enum ApiCmd {
    /// Run the API server.
    Serve,
    /// Talk to the API server.
    Client { operation: ClientOperation },
}

/// Development subcommands.
pub enum DebugCmd {
    /// Launch a guest and run a trick in it.
    RunGuest {
        cid: u32,
        port: u32,
        bzimage: String,
        initrd: String,
        /// Memory of the guest in GiB.
        ram: u32,
        cpu: u32,
        trick: String,
    },
}

/// Subcommands.
#[allow(inconsistent_fields)]
pub enum Cmd {
    /// Run one or more tricks and write a report.
    Run { tricks: Vec<String> },
    /// The API server and client.
    Api { subcmd: ApiCmd, socket: Option<Socket> },
    /// Serve the API on a virtio socket, inside a guest.
    Guest { cid: u32, port: u32 },
    Debug { subcmd: DebugCmd },
}

/// The command line.
pub struct Cli {
    pub subcmd: Cmd,
    /// Verbosity: -1 or lower is silent, 0 quiet, 1 info, 2 debug, 3 or more trace.
    pub verbose: i8,
    /// Format of the log.
    pub format: LoggingFormat,
}

} // verus!
