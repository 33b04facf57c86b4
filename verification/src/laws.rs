//! Laws of the library: what holds of every configuration, every data file and every
//! generated test.

pub mod collections;
pub mod configuration;
pub mod generated;
pub mod list;
pub mod messages;
