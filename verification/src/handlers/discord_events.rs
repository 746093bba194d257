pub mod authorized;
pub mod deauthorized;
pub mod handler;
