//! A Soulseek client's protocol layer and task decisions: the binary wire
//! format of requests, the message codes, the framing of what is sent, and
//! the decisions of the server-connection and main tasks.

pub mod codes;
pub mod messages;
pub mod protocol;
pub mod reconnect;
pub mod session;
