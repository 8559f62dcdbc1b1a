//! The SOCKS version 5 negotiation, per RFC 1928, as a pair of resumable
//! state machines: one for the acceptor side, one for the originator side.
//!
//! The machines hold no stream. A driver performs each read or write the
//! machine asks for and hands the outcome back as an [`handshake::Event`];
//! the machine answers with the next [`handshake::Action`] until it yields
//! the decoded message or a typed error. The GSSAPI and username/password
//! authentication methods are not supported: only "no authentication" is
//! ever negotiated.

pub mod v5;
pub mod msg;
pub mod handshake;
pub mod server;
pub mod client;
