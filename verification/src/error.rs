//! The failures that the plugin core reports as values.

use vstd::prelude::*;

verus! {

/// Why a request to the plugin core was refused.
///
/// Nothing in this crate unwinds: construction, lookup and negotiation hand
/// one of these back, and a failed processing cycle is a
/// [`ProcessStatus`](crate::engine::ProcessStatus), not an error.
#[derive(Clone, Copy, Debug, PartialEq, Eq, Structural)]
pub enum PluginError {
    /// A descriptor was built with an empty key, an empty range, or a
    /// default outside its range.
    MalformedDescriptor,
    /// Two parameters of one tree carry the same key.
    DuplicateParameterKey,
    /// No parameter of the tree carries the key that was asked for.
    ParameterNotFound,
    /// The proposed channel layout is not one the plugin works with.
    BusConfigRejected,
}

} // verus!
