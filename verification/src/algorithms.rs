//! The supported key algorithms, one module each.

pub mod ed25519;
