//! What the sampler needs to know of incoming notes.
pub mod velocity;
