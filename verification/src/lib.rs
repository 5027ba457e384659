//! The protocol engine of a client for a chat service that speaks tagged
//! text frames over a socket and knows its users by a cookie.
//!
//! The engine holds every rule of the protocol and performs no input or
//! output. A [`Connection`] is a machine: it says which outside work is owed
//! (a credential check, a handshake), takes the outcome of that work and of
//! every read of the socket, and answers with a [`Step`]: read again, perform
//! a [`Request`], or the result of the call. Whoever drives it owns the
//! socket.
//!
//! Frames are built and taken apart in [`codec`], the credential is handled
//! in [`credential`], and [`lemmas`] holds what is proved of the whole.

pub mod codec;
pub mod connection;
pub mod credential;
pub mod error;
pub mod json;
pub mod lemmas;
pub mod message;
pub mod plain;
pub mod unquote;

pub use connection::{Connection, Phase, Request, Step};
pub use error::ChatError;
pub use message::{ChatMessage, MessageType, WhisperMessage};
pub use unquote::clean_received;
