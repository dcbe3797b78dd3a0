//! Plain records of the server's outer interface.

use crate::gps::RealBits;
use vstd::prelude::*;

verus! {

/// Answer to a request that can only succeed or fail.
#[derive(Debug, Clone, Copy, PartialEq, Eq, Structural)]
pub struct Response {
    pub success: bool,
}

/// What the server is started with.
#[derive(Debug, Clone, PartialEq, Eq)]
pub struct Args {
    /// The address to listen on.
    pub api_host: String,
    /// The port to listen on.
    pub port: u16,
    /// Print the interface description and leave.
    pub swagger: bool,
}

/// A named stop and where it lies.
#[derive(Debug, Clone, PartialEq, Eq)]
pub struct StopConfig {
    pub name: String,
    pub lat: RealBits,
    pub lon: RealBits,
}

impl Args {
    /// The arguments of a server that was started without any: it listens
    /// on the loopback address, port 8080.
    pub fn new() -> (args: Args)
        ensures
            args.api_host@ == "127.0.0.1"@,
            args.port == 8080,
            !args.swagger,
    {
        Args { api_host: "127.0.0.1".to_owned(), port: 8080, swagger: false }
    }
}

} // verus!
