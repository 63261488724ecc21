//! Foreign-function boundary for an on-demand-paged lazy-object engine.
//!
//! External callers create, configure, query and destroy memory regions whose
//! content an engine materializes lazily through caller-supplied population
//! callbacks. This crate owns the boundary's decisions and verifies them:
//! nullable opaque handles with exactly-once release, watermark
//! normalization, marshalling between the caller's fixed-layout parameter
//! block and the engine-facing configuration, the registry of live objects
//! and their address ranges, the callback-metadata table joined by
//! engine-issued object identity, and the process-wide event handler. The
//! paging machinery itself — reservation, fault interception, population
//! workers, eviction, writeback — belongs to the engine and stays outside.

pub mod boundary;
pub mod handle;
pub mod laws;
pub mod layout;
pub mod object;
pub mod prototype;
