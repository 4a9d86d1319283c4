pub mod engine;
pub mod receiver;
pub mod sender;
