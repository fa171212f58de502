//! Virtual machine backends.

pub mod qemu;
pub mod launch;
