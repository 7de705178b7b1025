//! Storage-key composition and environment description for contract code.
//!
//! Two independent leaf components:
//!
//! - [`environment`]: immutable descriptors of a host runtime's primitive
//!   types and protocol limits, notably the maximum number of indexed event
//!   topics, with field-level derivation and topic-limit checking.
//! - [`key`]: a pure, deterministic composer that turns a hierarchical path of
//!   symbolic segments into a fixed-width storage key by joining the segments
//!   with `::` and hashing the canonical string.
//! - [`events`]: a minimal contract whose one message builds an event with
//!   many indexed topics, validated against a chosen environment descriptor.

pub mod environment;
pub mod events;
pub mod key;
