//! Round by round sessions for distributed key generation and threshold
//! signing, as a host drives them across a foreign function boundary.
//!
//! The host holds each session by a handle and moves it from round to round:
//! it asks for the first message, hands in the messages of the other parties,
//! and takes the messages to send out, until the session ends with a keyshare,
//! with a signature, or in failure. This crate is the part between the host
//! and the protocol engine: it keeps the round of every session, checks what
//! the host hands in before the engine sees it, wraps the engine's messages
//! for the wire, and turns every failure into an error value.

pub mod bytes;
pub mod errors;
pub mod keygen;
pub mod keyshare;
pub mod message;
pub mod rng;
pub mod sign;

pub use errors::GoError;
pub use keygen::KeygenSessionHandle;
pub use keyshare::KeyshareHandle;
pub use message::{ByteBuffer, Message, MessageRouting};
pub use rng::maybe_seeded_rng;
pub use sign::SignSessionHandle;
