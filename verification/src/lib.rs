//! A sans-I/O core for a small request/response server.
//!
//! The crate holds the decisions of the server and none of its sockets: the
//! messages and their dispatch, the per-connection handler as a step function
//! from events to actions, and the accept loop with its start/stop control and
//! shutdown signal. A caller owns the transport and the codec, performs each
//! action that a step returns, and reports what happened as the next event.

pub mod message;
pub mod client;
pub mod session;
pub mod server;
