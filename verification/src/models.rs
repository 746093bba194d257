//! The records that the backend reads and writes.

pub mod discord;
pub mod discord_events;
pub mod guild;
pub mod report;
pub mod time;
pub mod user;
pub mod websocket;
