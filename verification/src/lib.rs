//! Parameter identity and ordering for an audio plugin.
//!
//! A plugin declares its automatable parameters in a tree of groups. Hosts see
//! them as one flat, ordered list and address each of them by a stable string
//! key, so that saved automation survives a regrouping of the tree. This crate
//! holds that tree, its flattening and key lookup, the negotiation of channel
//! layouts, and the plugin's lifecycle, each with a proved contract.

pub mod bus;
pub mod engine;
pub mod error;
pub mod example;
pub mod group;
pub mod key;
pub mod lifecycle;
pub mod listing;
pub mod metadata;
pub mod parameter;
pub mod registry;
pub mod value;
