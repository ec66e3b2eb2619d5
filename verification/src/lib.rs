//! Frame codec and connection bookkeeping for a small HTTP/2 link library.
pub mod client;
pub mod consts;
pub mod error;
pub mod frame;
pub mod handshake;
pub mod link;
pub mod server;
pub mod token;
pub mod writer;

pub use client::{ClientFlags, ClientState};
pub use link::{LinkFlags, LinkState};
pub use server::ServerFlags;
pub use token::Token;
