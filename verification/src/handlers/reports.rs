pub mod accept;
pub mod create;
pub mod evidence;
pub mod lookup;
pub mod upload;
