//! The Assuan protocol server that gpg-agent talks to: the wire escaping,
//! the error codes, the accumulated pinentry state and the command loop.
pub mod codec;
pub mod error;
pub mod laws;
pub mod server;
pub mod state;

pub use error::AssuanError;
pub use server::Server;
pub use state::{Options, Owner, Request, State};
