//! Gateway logic between a browser client and an upstream encyclopedia.
//!
//! The gateway resolves two random article titles through the upstream's
//! redirects, fetches an article and isolates its readable content, and
//! relays the upstream's scripts, styles and media byte for byte. This
//! library holds every decision of it and performs no input or output: the
//! program around it sends the requests that the library names and hands back
//! what came of them.

use crate::client::{Client, DEFAULT_WIKI_URL, USER_AGENT};
use crate::server::{Server, ServerError, LAST_RESERVED_PORT};
use std::sync::Arc;
use vstd::prelude::*;

pub mod api;
pub mod client;
pub mod server;
pub mod text;

verus! {

/// The port to listen on where the command line names none.
pub const DEFAULT_PORT: u16 = 8080;

/// What the command line configures.
#[derive(Debug)]
pub struct Args {
    pub port: u16,
    pub static_path: String,
}

/// Sets the gateway up from its arguments: a client for the default upstream
/// root, and a server on the port and static-assets path that were given.
/// `metadata` is what looking up the static-assets path gave. The server
/// comes back ready to listen, or the configuration is refused as
/// `Server::new` refuses it.
pub fn run(args: Args, metadata: Result<bool, std::io::Error>) -> (outcome: Result<
    Server,
    ServerError,
>)
    ensures
        match outcome {
            Ok(server) => {
                &&& args.port > LAST_RESERVED_PORT
                &&& metadata == Ok::<bool, std::io::Error>(true)
                &&& server.listening_port() == args.port
                &&& server.assets() == args.static_path@
                &&& server.upstream().base() == DEFAULT_WIKI_URL@
                &&& server.upstream().agent() == USER_AGENT@
                &&& !server.upstream().redirects_followed()
            },
            Err(ServerError::InvalidPort(refused)) => args.port <= LAST_RESERVED_PORT && refused
                == args.port,
            Err(ServerError::StaticPathError(reason)) => args.port > LAST_RESERVED_PORT && metadata
                == Err::<bool, std::io::Error>(reason),
            Err(ServerError::StaticPathNotADirectory) => args.port > LAST_RESERVED_PORT && metadata
                == Ok::<bool, std::io::Error>(false),
        },
{
    let client = Arc::new(Client::new(None));
    Server::new(args.port, args.static_path, client, metadata)
}

} // verus!
