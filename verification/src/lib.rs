//! Boot orchestration and capability-state bookkeeping for a capDL-driven
//! rootserver: the first user-space program a capability-based microkernel
//! runs after boot.
//!
//! The crate provides the fixed-capacity translation tables from abstract
//! capDL object identifiers to live capability slots ([`tables`]), the
//! boot-time validation of kernel resources against the configured table
//! capacities ([`validate`]), the taint-preserving handoff protocol for
//! untyped memory regions ([`untyped`]), the strictly sequential boot phase
//! machine ([`boot`]), bounded console-line formatting ([`console`]) and
//! diagnostic image-layout accounting ([`image`]).

pub mod tables;
pub mod untyped;
pub mod boot;
pub mod console;
pub mod image;
pub mod validate;
