//! A minimal local inter-process communication framework: a single-threaded,
//! non-blocking server that listens on a local domain socket, accepts one
//! request per connection, dispatches it to caller-supplied application logic,
//! and returns a serialized response.
//!
//! The verified core is the protocol engine: the framing and codec contracts
//! ([`wire`]), the command abstraction ([`command`]), the endpoint setup plan
//! ([`setup`]), the server drain state machine ([`server`]) and the client
//! sender decisions ([`client`]). The embedding application performs the
//! actual socket and filesystem calls and feeds their outcomes back into the
//! engine as events.

pub mod client;
pub mod command;
pub mod errors;
pub mod laws;
pub mod server;
pub mod setup;
pub mod tally;
pub mod wire;

pub use command::IpcServerCommand;
pub use errors::would_block;
pub use server::IpcServer;
