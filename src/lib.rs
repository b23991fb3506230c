//! A chat-room bot's decision engine: command routing, uptime reporting,
//! reactions to room messages and invites, and the session bootstrap.

pub mod uptime;
pub mod router;
pub mod dispatch;
pub mod invite;
pub mod bootstrap;
