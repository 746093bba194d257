pub mod create;
pub mod delete;
pub mod list;
