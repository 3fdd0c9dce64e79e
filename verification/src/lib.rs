//! Hardware-agnostic capability layer for a multi-architecture bootloader.
//!
//! The crate exposes three groups of capability interfaces that boot stages
//! consume identically on every hardware target:
//!
//! * storage and partition access (`storage`, `partition`, `devices`),
//! * CPU and boot-ROM introspection (`low_level`),
//! * Fastboot boot-mode state and A/B slot bookkeeping (`boot_modes`).
//!
//! Backends implement the traits; the contracts encode the invariants that a
//! careless backend must not be able to bypass: derived predicates are exact
//! negations of their sources, a forbidden device rejects every write, and
//! A/B slot predicates partition the slot states.

pub mod boot_alloc;
pub mod boot_modes;
pub mod devices;
pub mod errors;
pub mod gpt_types;
pub mod low_level;
pub mod partition;
pub mod storage;
pub mod text;
