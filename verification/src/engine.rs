//! The processing engine: what runs once for every block of audio.

use vstd::prelude::*;
use crate::bus::{AcceptedBusConfig, BusConfig};

verus! {

/// How a processing cycle ended.
#[derive(Clone, Copy, Debug, PartialEq, Eq, Structural)]
pub enum ProcessStatus {
    /// All is well; the host goes on.
    Normal,
    /// The plugin still has output to give after its input fell silent, but
    /// not forever: for this much longer at most, as the host counts it.
    Tail(u32),
    /// The engine cannot go on, and the host should deactivate the plugin.
    Error,
}

/// The engine of a plugin that leaves its audio untouched.
///
/// An engine exists only for a layout that was accepted, and a cycle does
/// nothing but report: it neither waits nor allocates, whatever the size of
/// the block.
#[derive(Debug)]
pub struct ProcessingEngine {
    bus: AcceptedBusConfig,
}

impl ProcessingEngine {
    /// The layout that the engine was made for.
    pub closed spec fn bus(self) -> BusConfig {
        self.bus@
    }

    /// Holds of every engine there is: its layout is one the plugin works
    /// with.
    #[verifier::type_invariant]
    pub open spec fn well_formed(self) -> bool {
        self.bus().is_symmetric()
    }

    /// An engine for the accepted layout `bus`.
    pub fn new(bus: AcceptedBusConfig) -> (engine: ProcessingEngine)
        ensures
            engine.bus() == bus@,
    {
        proof {
            use_type_invariant(&bus);
        }
        ProcessingEngine { bus }
    }

    /// The layout that the engine was made for.
    pub fn bus_config(&self) -> (config: BusConfig)
        ensures
            config == self.bus(),
            config.is_symmetric(),
    {
        self.bus.config()
    }

    /// Runs one cycle on `buffer`, with the auxiliary buffers `aux` and the
    /// host's `context` for this cycle. The audio passes through as it came,
    /// and the cycle always ends as [`ProcessStatus::Normal`].
    pub fn process<B, A, C>(&mut self, buffer: &mut B, aux: &mut A, context: &mut C) -> (status:
        ProcessStatus)
        ensures
            status == ProcessStatus::Normal,
            *final(self) == *old(self),
            *final(buffer) == *old(buffer),
            *final(aux) == *old(aux),
            *final(context) == *old(context),
    {
        ProcessStatus::Normal
    }
}

} // verus!
