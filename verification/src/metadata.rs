//! What a plugin tells a host about itself before anything runs.

use vstd::prelude::*;
use crate::bus::{AuxiliaryIOConfig, BusConfig};

verus! {

/// How much of the host's MIDI traffic a plugin takes part in.
#[derive(Clone, Copy, Debug, PartialEq, Eq, Structural)]
pub enum MidiConfig {
    /// None of it.
    Off,
    /// Notes and their expression.
    Basic,
    /// Everything, controller changes included.
    Full,
}

/// A plugin's identity and capabilities. A plugin hands out copies, so what
/// it says of itself stays what it was.
#[derive(Clone, Copy, Debug)]
pub struct PluginDescriptor {
    /// The plugin's name.
    pub name: &'static str,
    /// Who made it.
    pub vendor: &'static str,
    /// Where to read about it.
    pub url: &'static str,
    /// Where to write to about it.
    pub email: &'static str,
    /// Its version.
    pub version: &'static str,
    /// Input channels when the host has no preference.
    pub default_input_channels: u32,
    /// Output channels when the host has no preference.
    pub default_output_channels: u32,
    /// Auxiliary inputs when the host has no preference.
    pub default_aux_inputs: Option<AuxiliaryIOConfig>,
    /// Auxiliary outputs when the host has no preference.
    pub default_aux_outputs: Option<AuxiliaryIOConfig>,
    /// MIDI that the plugin receives.
    pub midi_input: MidiConfig,
    /// MIDI that the plugin sends.
    pub midi_output: MidiConfig,
    /// Whether parameter changes take effect within a block, at the sample
    /// they are meant for, or only between blocks. The core does nothing
    /// with this: it is for the host's side of the plugin interface.
    pub sample_accurate_automation: bool,
}

impl PluginDescriptor {
    /// The layout that the plugin asks for when the host has no preference.
    pub open spec fn default_layout(self) -> BusConfig {
        BusConfig {
            num_input_channels: self.default_input_channels,
            num_output_channels: self.default_output_channels,
            aux_input_busses: self.default_aux_inputs,
            aux_output_busses: self.default_aux_outputs,
        }
    }

    /// The layout that the plugin asks for when the host has no preference.
    pub fn default_bus_config(&self) -> (config: BusConfig)
        ensures
            config == self.default_layout(),
    {
        BusConfig {
            num_input_channels: self.default_input_channels,
            num_output_channels: self.default_output_channels,
            aux_input_busses: self.default_aux_inputs,
            aux_output_busses: self.default_aux_outputs,
        }
    }
}

} // verus!
