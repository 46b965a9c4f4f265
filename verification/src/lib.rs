//! A fixed-capacity parking facility: a bounded set of numbered spots, each
//! free, occupied, or reserved, with allocation, release and reservation
//! operations over an in-memory registry.

pub mod laws;
pub mod registry;
