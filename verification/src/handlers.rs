pub mod callbacks;
pub mod discord;
pub mod discord_events;
pub mod guilds;
pub mod reports;
pub mod users;
pub mod websocket;
