//! Protocol engine of a SOCKS5 proxy server.
//!
//! The crate holds everything a connection decides: the wire format of
//! addresses and replies, method negotiation, the username/password
//! sub-negotiation, request parsing and the per-connection state machine.
//! It performs no I/O itself; an embedder carries out the actions the
//! engine asks for and hands the outcomes back.

pub mod address;
pub mod auth;
pub mod config;
pub mod consts;
pub mod error;
pub mod handshake;
pub mod laws;
pub mod request;
pub mod socket;
pub mod wire;

pub use crate::address::TargetAddr;
pub use crate::auth::Authentication;
pub use crate::auth::SimpleUserPassword;
pub use crate::config::Config;
pub use crate::error::ReplyError;
pub use crate::error::SocksError;
pub use crate::socket::Action;
pub use crate::socket::AuthenticationMethod;
pub use crate::socket::Event;
pub use crate::socket::Socks5Socket;
