pub mod discord;
