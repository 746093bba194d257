pub mod authorized;
