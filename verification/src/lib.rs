//! A build-time generator that unifies per-device capability descriptors
//! into one merged schema and renders typed source artifacts from it.
//!
//! The core is the cross-model unification algorithm in [`unify`]:
//! positional parameter alignment with optionality inference, enumerated
//! allowed-value merging, and conflict detection across any number of
//! models. [`resolve`] maps data-type tags to target primitives, [`emit`]
//! renders the merged schema into text, and [`laws`] states and proves the
//! algorithm's governing properties.

pub mod emit;
pub mod laws;
pub mod merged;
pub mod naming;
pub mod resolve;
pub mod schema;
pub mod unify;
