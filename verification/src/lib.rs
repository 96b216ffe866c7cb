//! Dispatch-on-collect for sum types.
//!
//! This library partitions a sequence of sum-type values into one accumulator
//! per variant, in a single eager pass, preserving the relative order of the
//! elements routed to each accumulator.  It has three parts:
//!
//! - [`container`] defines the accumulator capability: a container that can be
//!   created empty and absorb elements one at a time.
//! - [`schema`] inspects a structural description of a candidate type and
//!   derives the ordered variant schema that drives dispatching, rejecting
//!   candidates that are not sum types, variants with named-field payloads,
//!   and variant counts outside the supported range.
//! - [`dispatch`], [`dispatchers`], [`sums`] and [`std_enums`] define the
//!   dispatcher contracts, one for each supported arity, the canonical sum
//!   types that implement them, and ready-made partition operations for the
//!   standard binary-outcome and borrowed-or-owned types.

pub mod container;
pub mod dispatch;
pub mod dispatchers;
pub mod schema;
pub mod std_enums;
pub mod sums;
