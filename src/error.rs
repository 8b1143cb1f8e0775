//! Errors of the library: fatal configuration errors and session-scoped failures.
use vstd::prelude::*;
use crate::text::{decimal, decimal_chars};

verus! {

/// A startup error: the process cannot run with this configuration.
#[derive(Clone, Copy, Debug, PartialEq, Eq)]
pub enum ConfigError {
    /// The frame size is below the minimum of one byte.
    InvalidFrameSize(u32),
    /// The frame is longer than the four bytes of the greeting can announce.
    FrameTooLarge(usize),
    /// The external-trap output was chosen without its options.
    MissingOutputOptions,
}

/// A failure that ends one client or server session; the process goes on.
#[derive(Clone, Debug, PartialEq, Eq)]
pub enum SessionError {
    /// The first byte of the peer's greeting is not the magic value.
    InvalidHello,
    /// The client announced a frame size below the minimum.
    InvalidFrameSize(u32),
    /// The echoed bytes differ from the request.
    InvalidPacket,
    /// The peer closed the connection before the handshake completed.
    Closed,
    /// The transport reported an event that the session did not ask for.
    OutOfOrder,
    /// A transport error (timeout, refused, reset), with its description.
    Io(String),
}

impl ConfigError {
    /// The text of the error.
    pub fn message(&self) -> (r: String)
        ensures
            r@ == self.message_chars(),
    {
        match self {
            ConfigError::InvalidFrameSize(n) => {
                let mut s = String::from_str("invalid frame size: ");
                s.append(decimal(*n as u64).as_str());
                s
            },
            ConfigError::FrameTooLarge(n) => {
                let mut s = String::from_str("frame too large: ");
                s.append(decimal(*n as u64).as_str());
                s
            },
            ConfigError::MissingOutputOptions => String::from_str("output options not specified"),
        }
    }

    pub open spec fn message_chars(&self) -> Seq<char> {
        match self {
            ConfigError::InvalidFrameSize(n) => "invalid frame size: "@ + decimal_chars(*n as nat),
            ConfigError::FrameTooLarge(n) => "frame too large: "@ + decimal_chars(*n as nat),
            ConfigError::MissingOutputOptions => "output options not specified"@,
        }
    }
}

impl SessionError {
    /// The text of the error.
    pub fn message(&self) -> (r: String)
        ensures
            r@ == self.message_chars(),
    {
        match self {
            SessionError::InvalidHello => String::from_str("invalid hello"),
            SessionError::InvalidFrameSize(n) => {
                let mut s = String::from_str("invalid frame size: ");
                s.append(decimal(*n as u64).as_str());
                s
            },
            SessionError::InvalidPacket => String::from_str("invalid packet"),
            SessionError::Closed => String::from_str("connection closed during handshake"),
            SessionError::OutOfOrder => String::from_str("unexpected transport event"),
            SessionError::Io(m) => m.clone(),
        }
    }

    pub open spec fn message_chars(&self) -> Seq<char> {
        match self {
            SessionError::InvalidHello => "invalid hello"@,
            SessionError::InvalidFrameSize(n) => "invalid frame size: "@ + decimal_chars(*n as nat),
            SessionError::InvalidPacket => "invalid packet"@,
            SessionError::Closed => "connection closed during handshake"@,
            SessionError::OutOfOrder => "unexpected transport event"@,
            SessionError::Io(m) => m@,
        }
    }
}

} // verus!
