//! Conversion of compose extension data into Quadlet file models.

pub mod collections;
pub mod compose;
pub mod extensions;
pub mod file_laws;
pub mod handlers;
pub mod laws;
pub mod net;
pub mod parse;
pub mod pod;
pub mod quadlet;
pub mod registry;
pub mod systemd;
pub mod text;
