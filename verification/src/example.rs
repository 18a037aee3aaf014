//! The plugin that this crate is the core of: four parameters, two of them
//! in a nested group, and audio that passes through untouched.
//!
//! The parameters are declared as `one`, then a group `inner` holding `two`
//! and `three`, then `four`; hosts see `one`, `two`, `three`, `four`.

use vstd::prelude::*;
use crate::group::ParameterGroup;
use crate::lifecycle::{InstanceView, LifecycleState, PluginInstance};
use crate::listing::{all_wf, keys_distinct};
use crate::metadata::{MidiConfig, PluginDescriptor};
use crate::parameter::{DescriptorView, ParameterDescriptor, ParameterRange, RangeLaw};
use crate::registry::ParameterRegistry;
use crate::value::{RANK_ONE, RANK_ZERO};

verus! {

/// The plugin's name.
pub const NAME: &'static str = "Param Order Example";

/// Who made the plugin.
pub const VENDOR: &'static str = "Your Name";

/// Where to read about the plugin.
pub const URL: &'static str = "https://youtu.be/dQw4w9WgXcQ";

/// Where to write to about the plugin.
pub const EMAIL: &'static str = "your@email.com";

/// The name of the nested group.
pub const INNER_GROUP: &'static str = "inner";

/// Input channels when the host has no preference.
pub const DEFAULT_INPUT_CHANNELS: u32 = 2;

/// Output channels when the host has no preference.
pub const DEFAULT_OUTPUT_CHANNELS: u32 = 2;

/// MIDI that the plugin receives.
pub const MIDI_INPUT: MidiConfig = MidiConfig::Off;

/// MIDI that the plugin sends.
pub const MIDI_OUTPUT: MidiConfig = MidiConfig::Off;

/// Whether parameter changes are meant to take effect within a block.
pub const SAMPLE_ACCURATE_AUTOMATION: bool = true;

/// The range of every parameter of the plugin: from `0.0` to `1.0`, linear.
pub open spec fn unit_range() -> ParameterRange {
    ParameterRange { min: RANK_ZERO, max: RANK_ONE, law: RangeLaw::Linear }
}

/// The description of a parameter of the plugin as declared: within the unit
/// range, at `0.0`.
pub open spec fn unit_parameter(key: Seq<char>, display_name: Seq<char>) -> DescriptorView {
    DescriptorView::fresh(key, display_name, RANK_ZERO, unit_range())
}

/// The plugin's parameters in host order, as declared.
pub open spec fn listing() -> Seq<DescriptorView> {
    seq![
        unit_parameter("one"@, "One"@),
        unit_parameter("two"@, "Two"@),
        unit_parameter("three"@, "Three"@),
        unit_parameter("four"@, "Four"@),
    ]
}

/// What the plugin tells hosts about itself, as version `version`.
pub open spec fn identity(version: &'static str) -> PluginDescriptor {
    PluginDescriptor {
        name: NAME,
        vendor: VENDOR,
        url: URL,
        email: EMAIL,
        version,
        default_input_channels: DEFAULT_INPUT_CHANNELS,
        default_output_channels: DEFAULT_OUTPUT_CHANNELS,
        default_aux_inputs: None,
        default_aux_outputs: None,
        midi_input: MIDI_INPUT,
        midi_output: MIDI_OUTPUT,
        sample_accurate_automation: SAMPLE_ACCURATE_AUTOMATION,
    }
}

/// The keys of the plugin's parameters are all different, and every
/// parameter is well formed.
pub proof fn lemma_listing_is_a_registry()
    ensures
        keys_distinct(listing()),
        all_wf(listing()),
        listing().len() == 4,
{
    reveal_strlit("one");
    reveal_strlit("two");
    reveal_strlit("three");
    reveal_strlit("four");
    let flat = listing();
    assert(flat[0].key == "one"@ && flat[1].key == "two"@ && flat[2].key == "three"@ && flat[3].key
        == "four"@);
    assert("one"@[0] == 'o' && "two"@[0] == 't');
}

/// What the plugin tells hosts about itself, as version `version`: stereo in
/// and out by default, no auxiliary busses, no MIDI.
pub fn descriptor(version: &'static str) -> (descriptor: PluginDescriptor)
    ensures
        descriptor == identity(version),
        descriptor.default_layout().is_symmetric(),
{
    PluginDescriptor {
        name: NAME,
        vendor: VENDOR,
        url: URL,
        email: EMAIL,
        version,
        default_input_channels: DEFAULT_INPUT_CHANNELS,
        default_output_channels: DEFAULT_OUTPUT_CHANNELS,
        default_aux_inputs: None,
        default_aux_outputs: None,
        midi_input: MIDI_INPUT,
        midi_output: MIDI_OUTPUT,
        sample_accurate_automation: SAMPLE_ACCURATE_AUTOMATION,
    }
}

fn declare(key: &str, display_name: &str) -> (descriptor: ParameterDescriptor)
    requires
        key@.len() > 0,
    ensures
        descriptor@ == unit_parameter(key@, display_name@),
{
    let range = ParameterRange::linear(RANK_ZERO, RANK_ONE);
    ParameterDescriptor::new(key, display_name, RANK_ZERO, range).unwrap()
}

/// The plugin's parameter tree, as declared.
pub fn parameters() -> (root: ParameterGroup)
    ensures
        root.flat() == listing(),
        root.label() == ""@,
{
    proof {
        reveal_strlit("one");
        reveal_strlit("two");
        reveal_strlit("three");
        reveal_strlit("four");
    }
    let mut inner = ParameterGroup::new(INNER_GROUP);
    inner.push_parameter(declare("two", "Two"));
    inner.push_parameter(declare("three", "Three"));
    let mut root = ParameterGroup::new("");
    root.push_parameter(declare("one", "One"));
    root.push_group(inner);
    root.push_parameter(declare("four", "Four"));
    root
}

/// The plugin's parameters, each at its default.
pub fn registry() -> (registry: ParameterRegistry)
    ensures
        registry@ == listing(),
        registry.wf(),
{
    proof {
        lemma_listing_is_a_registry();
    }
    ParameterRegistry::new(parameters()).unwrap()
}

/// A new instance of the plugin, as version `version`.
pub fn instance(version: &'static str) -> (instance: PluginInstance)
    ensures
        instance@ == (InstanceView {
            state: LifecycleState::Uninitialized,
            bus: None,
            parameters: Some(listing()),
            descriptor: identity(version),
        }),
        instance@.wf(),
{
    PluginInstance::new(descriptor(version), registry())
}

} // verus!
