//! A declaration layer for composing per-frame GPU work against a
//! dependency-tracking graph engine.
//!
//! The crate owns two pieces of a real-time renderer that are easy to get
//! wrong and cheap to state precisely:
//!
//! - the *temporal resource lifecycle*: persistent GPU resources are handed
//!   into each frame's graph by `begin`, handed back by `end`, and their
//!   per-frame bookkeeping is reclaimed by `retire`, with the bracket
//!   discipline enforced by contracts; and
//! - the *pass-composition builder*: a fluent accumulator that turns a
//!   sequence of `read`/`write` registrations into an ordered descriptor
//!   binding list, where call order is slot order.
//!
//! The graph engine itself only records declarations: every pass becomes an
//! inspectable recorded command (a pipeline, descriptor sets, and one
//! invocation) on a submission queue. Dependency resolution, barrier
//! placement, and device execution belong to the engine's backend and are
//! outside this layer; buffer contents are modeled as plain bytes so that
//! the lifecycle and binding contracts are about observable data.

pub mod desc;
pub mod temporal;
pub mod graph;
pub mod builder;
pub mod render_passes;
pub mod surfel_gi;
pub mod laws;
