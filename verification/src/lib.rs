//! A registry of named nearest-neighbour search indexes.
//!
//! The registry keeps, for every name, what a serving layer has to know of an
//! index in order to decide whether a request may reach the search engine
//! behind it: the algorithm family, the dimension, the lifecycle state, the
//! committed metric and the ids stored so far. The engine itself is not part
//! of this crate. Every operation that involves it comes in two steps: an
//! admission step that says whether the engine may be called, and the
//! operation proper, which takes what the engine reported and commits it.
//!
//! - `metric`, `family`: the metrics and the algorithm families, and the
//!   names they go by on the wire.
//! - `factory`: making an instance.
//! - `instance`: one index, its lifecycle and its rules.
//! - `registry`: the instances by name.
//! - `snapshot`: an instance as bytes.
//! - `wire`: the status that an outcome is answered with.
//! - `error`: the errors of all of these.
//! - `laws`: what holds of every instance and every registry.

pub mod error;
pub mod factory;
pub mod family;
pub mod instance;
pub mod laws;
pub mod metric;
pub mod registry;
pub mod snapshot;
pub mod text;
pub mod wire;

pub use crate::metric::metrics_transform;
