pub mod manifest;
pub mod paths;
pub mod writer;
