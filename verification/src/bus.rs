//! Channel layouts and the rule by which the plugin accepts them.

use vstd::prelude::*;
use crate::error::PluginError;

verus! {

/// The auxiliary busses on one side of the plugin.
#[derive(Clone, Copy, Debug, PartialEq, Eq, Structural)]
pub struct AuxiliaryIOConfig {
    /// How many auxiliary busses there are.
    pub num_busses: u32,
    /// How many channels each of them carries.
    pub num_channels: u32,
}

/// A channel layout that a host proposes for a processing session.
#[derive(Clone, Copy, Debug, PartialEq, Eq, Structural)]
pub struct BusConfig {
    /// Channels on the main input.
    pub num_input_channels: u32,
    /// Channels on the main output.
    pub num_output_channels: u32,
    /// Auxiliary inputs, if the host offers any.
    pub aux_input_busses: Option<AuxiliaryIOConfig>,
    /// Auxiliary outputs, if the host offers any.
    pub aux_output_busses: Option<AuxiliaryIOConfig>,
}

impl BusConfig {
    /// The layout with `inputs` and `outputs` main channels and no auxiliary
    /// busses.
    pub fn main_only(inputs: u32, outputs: u32) -> (config: BusConfig)
        ensures
            config == (BusConfig {
                num_input_channels: inputs,
                num_output_channels: outputs,
                aux_input_busses: None,
                aux_output_busses: None,
            }),
    {
        BusConfig {
            num_input_channels: inputs,
            num_output_channels: outputs,
            aux_input_busses: None,
            aux_output_busses: None,
        }
    }

    /// A layout is symmetric when it has as many outputs as inputs, and at
    /// least one of each.
    pub open spec fn is_symmetric(self) -> bool {
        self.num_input_channels == self.num_output_channels && self.num_input_channels > 0
    }
}

/// Decides which channel layouts the plugin works with.
///
/// The plugin passes audio through channel by channel, so it takes any
/// symmetric layout (mono, stereo, surround) and no layout that would need
/// channels to be mixed up or down.
#[derive(Clone, Copy, Debug, PartialEq, Eq, Structural)]
pub struct BusNegotiator;

impl BusNegotiator {
    /// Whether the plugin works with `config`. Needs no plugin state, so a
    /// host can ask before anything else exists.
    pub fn accepts(&self, config: &BusConfig) -> (accepted: bool)
        ensures
            accepted == config.is_symmetric(),
    {
        config.num_input_channels == config.num_output_channels && config.num_input_channels > 0
    }

    /// Accepts `config` for a processing session.
    ///
    /// Fails with [`PluginError::BusConfigRejected`] when the plugin does not
    /// work with `config`; the host may then propose another layout.
    pub fn negotiate(&self, config: BusConfig) -> (outcome: Result<AcceptedBusConfig, PluginError>)
        ensures
            config.is_symmetric() ==> outcome is Ok && outcome->Ok_0@ == config,
            !config.is_symmetric() ==> outcome is Err && outcome->Err_0
                == PluginError::BusConfigRejected,
    {
        if self.accepts(&config) {
            Ok(AcceptedBusConfig { config })
        } else {
            Err(PluginError::BusConfigRejected)
        }
    }
}

/// A channel layout that the plugin has accepted. There is no other way to
/// come by one than [`BusNegotiator::negotiate`].
#[derive(Clone, Copy, Debug)]
pub struct AcceptedBusConfig {
    config: BusConfig,
}

impl View for AcceptedBusConfig {
    type V = BusConfig;

    closed spec fn view(&self) -> BusConfig {
        self.config
    }
}

impl AcceptedBusConfig {
    /// Holds of every accepted layout there is.
    #[verifier::type_invariant]
    pub open spec fn well_formed(self) -> bool {
        self@.is_symmetric()
    }

    /// The layout that was accepted.
    pub fn config(&self) -> (config: BusConfig)
        ensures
            config == self@,
            config.is_symmetric(),
    {
        proof {
            use_type_invariant(self);
        }
        self.config
    }
}

} // verus!
