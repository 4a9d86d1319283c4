pub mod clock;
pub mod connection;
pub mod discovery;
pub mod dto;
pub mod fs;
pub mod ids;
pub mod net;
pub mod platform;
pub mod protocol;
pub mod security;
pub mod shared_map;
pub mod state;
pub mod text;
pub mod transfer;
