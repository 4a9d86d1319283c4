pub mod broadcast;
pub mod manager;
pub mod mdns;
