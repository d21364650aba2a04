//! Inventory collector for a virtualization host.
//!
//! The crate enumerates the domains (virtual machines) that a hypervisor
//! manages, normalizes their runtime state and resource counters into a
//! stable record schema, collects per-interface network statistics on a
//! best-effort basis, and renders the records either as structured JSON
//! text or as a human-readable table.
//!
//! All hypervisor calls are performed by the embedding program; the
//! library decides which call to make next and assembles the results,
//! so that the enumeration, normalization and rendering logic is fully
//! verified.

pub mod builder;
pub mod collect;
pub mod domain_state;
pub mod enumerate;
pub mod numfmt;
pub mod present_json;
pub mod present_table;
pub mod records;
