pub mod app;
pub mod peer;
pub mod transfer;
