//! What a node says on the wire and how it is put there.

pub mod misc;
pub mod node;
pub mod protocol;
pub mod service;
