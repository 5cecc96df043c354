mod strutil;
pub mod config;
pub mod keys;
pub mod sentinel;
pub mod transform;
pub mod transport;
