//! Stateless, ephemeral virtual machine instances.
//!
//! An instance is booted on demand from a disposable boot image that is
//! derived, copy-on-write, from an immutable base image. When the instance
//! terminates its state is gone; nothing is registered or persisted, and no
//! global host configuration is managed.
//!
//! The library decides everything about a launch: which hypervisor runs which
//! guest architecture, the exact commands that provision the boot image and
//! start the hypervisor, and how the outcome of each step leads to the next.
//! Running those commands is left to the caller.

pub mod backend;
