//! The packet framing, dispatch and message rules of a World of Warcraft
//! (WotLK) client, each decision with a contract that states its outcome.
//!
//! Network I/O, async tasks and the ciphers run outside this crate; the
//! library tells its caller what to read, what to transform and what to send,
//! and states exactly what each step produces.

pub mod wire;
pub mod opcode;
pub mod reader;
pub mod writer;
pub mod text;
pub mod output;
pub mod dispatch;
pub mod realm;
pub mod connection;
