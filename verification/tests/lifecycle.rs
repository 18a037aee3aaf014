use param_order::bus::BusConfig;
use param_order::engine::{ProcessStatus, ProcessingEngine};
use param_order::bus::BusNegotiator;
use param_order::error::PluginError;
use param_order::example;
use param_order::lifecycle::{HostCall, LifecycleState, PluginInstance};
use param_order::metadata::MidiConfig;
use param_order::value::{rank_from_bits, RANK_ONE, RANK_ZERO};

const STATES: [LifecycleState; 4] = [
    LifecycleState::Uninitialized,
    LifecycleState::Configured,
    LifecycleState::Processing,
    LifecycleState::Deactivated,
];

fn processing() -> PluginInstance {
    let mut plugin = example::instance("1.2.3");
    plugin.propose_bus_config(BusConfig::main_only(2, 2)).unwrap();
    plugin.activate();
    plugin
}

#[test]
fn transitions_follow_the_table() {
    let good = HostCall::ProposeBusConfig(BusConfig::main_only(2, 2));
    let bad = HostCall::ProposeBusConfig(BusConfig::main_only(1, 2));
    let u = LifecycleState::Uninitialized;
    let c = LifecycleState::Configured;
    let p = LifecycleState::Processing;
    let d = LifecycleState::Deactivated;
    assert_eq!(u.after(good), Some(c));
    assert_eq!(u.after(bad), Some(u));
    assert_eq!(c.after(HostCall::Activate), Some(p));
    assert_eq!(p.after(HostCall::Process), Some(p));
    assert_eq!(p.after(HostCall::Deactivate), Some(d));
    let legal = [(u, good), (u, bad), (c, HostCall::Activate), (p, HostCall::Process),
        (p, HostCall::Deactivate)];
    for state in STATES {
        for call in [good, bad, HostCall::Activate, HostCall::Process, HostCall::Deactivate] {
            if !legal.contains(&(state, call)) {
                assert_eq!(state.after(call), None);
            }
        }
    }
}

#[test]
fn new_instance_is_uninitialized_and_has_its_parameters() {
    let plugin = example::instance("1.2.3");
    assert_eq!(plugin.lifecycle_state(), LifecycleState::Uninitialized);
    assert_eq!(plugin.bus_config(), None);
    assert_eq!(plugin.params().unwrap().len(), 4);
    assert_eq!(plugin.descriptor().version, "1.2.3");
}

#[test]
fn rejected_proposal_keeps_the_instance_uninitialized() {
    let mut plugin = example::instance("1.2.3");
    for (inputs, outputs) in [(0, 0), (1, 2), (2, 1)] {
        let outcome = plugin.propose_bus_config(BusConfig::main_only(inputs, outputs));
        assert_eq!(outcome, Err(PluginError::BusConfigRejected));
        assert_eq!(plugin.lifecycle_state(), LifecycleState::Uninitialized);
        assert_eq!(plugin.bus_config(), None);
    }
    assert_eq!(plugin.propose_bus_config(BusConfig::main_only(6, 6)), Ok(()));
    assert_eq!(plugin.lifecycle_state(), LifecycleState::Configured);
    assert_eq!(plugin.bus_config(), Some(BusConfig::main_only(6, 6)));
}

#[test]
fn activation_keeps_layout_and_parameters() {
    let mut plugin = example::instance("1.2.3");
    plugin.set_parameter("two", RANK_ONE).unwrap();
    plugin.propose_bus_config(BusConfig::main_only(1, 1)).unwrap();
    plugin.activate();
    assert_eq!(plugin.lifecycle_state(), LifecycleState::Processing);
    assert_eq!(plugin.bus_config(), Some(BusConfig::main_only(1, 1)));
    assert_eq!(plugin.parameter_value("two"), Ok(RANK_ONE));
    assert_eq!(plugin.parameter_value("one"), Ok(RANK_ZERO));
}

#[test]
fn cycle_reports_normal_and_leaves_the_buffer() {
    let mut plugin = processing();
    let mut buffer: Vec<Vec<f32>> = vec![vec![0.25, -0.5, 1.0], vec![f32::MAX, 0.0, -1.0]];
    let before = buffer.clone();
    let mut aux: Vec<Vec<f32>> = Vec::new();
    let mut context = 0u64;
    for _ in 0..3 {
        let status = plugin.process(&mut buffer, &mut aux, &mut context);
        assert_eq!(status, ProcessStatus::Normal);
        assert_eq!(buffer, before);
        assert_eq!(plugin.lifecycle_state(), LifecycleState::Processing);
    }
    assert!(aux.is_empty());
    assert_eq!(context, 0);
}

#[test]
fn cycle_reports_normal_for_any_buffer() {
    let mut plugin = processing();
    let mut empty: Vec<f32> = Vec::new();
    let mut unit = ();
    assert_eq!(plugin.process(&mut empty, &mut unit, &mut unit_context()), ProcessStatus::Normal);
    let mut mismatched: Vec<Vec<f32>> = vec![vec![0.0; 7]; 5];
    assert_eq!(plugin.process(&mut mismatched, &mut unit, &mut unit_context()), ProcessStatus::Normal);
    assert_eq!(mismatched, vec![vec![0.0; 7]; 5]);
}

fn unit_context() -> u8 {
    0
}

#[test]
fn engine_reports_normal_for_every_accepted_layout() {
    for channels in [1u32, 2, 6] {
        let accepted = BusNegotiator.negotiate(BusConfig::main_only(channels, channels)).unwrap();
        let mut engine = ProcessingEngine::new(accepted);
        assert_eq!(engine.bus_config(), BusConfig::main_only(channels, channels));
        let mut buffer = vec![0.5f32; 64];
        let mut aux = ();
        let mut context = ();
        assert_eq!(engine.process(&mut buffer, &mut aux, &mut context), ProcessStatus::Normal);
        assert_eq!(buffer, vec![0.5f32; 64]);
        assert_eq!(engine.bus_config(), BusConfig::main_only(channels, channels));
    }
}

#[test]
fn parameters_can_be_written_while_processing() {
    let mut plugin = processing();
    let half = rank_from_bits(0.5f32.to_bits());
    assert_eq!(plugin.set_parameter("four", half), Ok(()));
    let mut buffer = [0.0f32; 4];
    plugin.process(&mut buffer, &mut (), &mut ());
    assert_eq!(plugin.parameter_value("four"), Ok(half));
    assert_eq!(plugin.set_parameter("five", half), Err(PluginError::ParameterNotFound));
    assert_eq!(plugin.parameter_value("five"), Err(PluginError::ParameterNotFound));
}

#[test]
fn teardown_drops_the_parameters() {
    let mut plugin = processing();
    plugin.deactivate();
    assert_eq!(plugin.lifecycle_state(), LifecycleState::Deactivated);
    assert!(plugin.params().is_none());
    assert_eq!(plugin.bus_config(), None);
    assert_eq!(plugin.parameter_value("one"), Err(PluginError::ParameterNotFound));
    assert_eq!(plugin.set_parameter("one", 1), Err(PluginError::ParameterNotFound));
    assert_eq!(plugin.descriptor().name, "Param Order Example");
    for call in [HostCall::ProposeBusConfig(BusConfig::main_only(2, 2)), HostCall::Activate,
        HostCall::Process, HostCall::Deactivate]
    {
        assert_eq!(plugin.lifecycle_state().after(call), None);
    }
}

#[test]
fn example_describes_itself() {
    let d = example::descriptor("0.1.0");
    assert_eq!(d.name, "Param Order Example");
    assert_eq!(d.vendor, "Your Name");
    assert_eq!(d.url, "https://youtu.be/dQw4w9WgXcQ");
    assert_eq!(d.email, "your@email.com");
    assert_eq!(d.version, "0.1.0");
    assert_eq!(d.default_input_channels, 2);
    assert_eq!(d.default_output_channels, 2);
    assert_eq!(d.default_aux_inputs, None);
    assert_eq!(d.default_aux_outputs, None);
    assert_eq!(d.midi_input, MidiConfig::Off);
    assert_eq!(d.midi_output, MidiConfig::Off);
    assert!(d.sample_accurate_automation);
    assert_eq!(d.default_bus_config(), BusConfig::main_only(2, 2));
    assert!(BusNegotiator.accepts(&d.default_bus_config()));
}

#[test]
fn example_declares_one_two_three_four() {
    let registry = example::registry();
    let list = registry.flattened_parameters();
    let keys: Vec<&str> = list.iter().map(|d| d.key()).collect();
    let names: Vec<&str> = list.iter().map(|d| d.display_name()).collect();
    assert_eq!(keys, vec!["one", "two", "three", "four"]);
    assert_eq!(names, vec!["One", "Two", "Three", "Four"]);
    for d in list {
        assert_eq!(d.value(), RANK_ZERO);
        assert_eq!(d.default_value(), RANK_ZERO);
        assert_eq!(d.range().min, rank_from_bits(0.0f32.to_bits()));
        assert_eq!(d.range().max, rank_from_bits(1.0f32.to_bits()));
    }
    let root = example::parameters();
    assert_eq!(root.name(), "");
    assert_eq!(root.flatten().len(), 4);
}

const MIDI_IN: MidiConfig = example::MIDI_INPUT;
const CHANNELS: (u32, u32) = (example::DEFAULT_INPUT_CHANNELS, example::DEFAULT_OUTPUT_CHANNELS);

#[test]
fn example_constants_are_what_the_descriptor_says() {
    let d = example::descriptor("9");
    assert_eq!(d.name, example::NAME);
    assert_eq!(d.vendor, example::VENDOR);
    assert_eq!(d.url, example::URL);
    assert_eq!(d.email, example::EMAIL);
    assert_eq!((d.default_input_channels, d.default_output_channels), CHANNELS);
    assert_eq!(d.midi_input, MIDI_IN);
    assert_eq!(d.midi_output, example::MIDI_OUTPUT);
    assert_eq!(d.sample_accurate_automation, example::SAMPLE_ACCURATE_AUTOMATION);
    assert_eq!(example::INNER_GROUP, "inner");
    assert_eq!(example::instance("9").descriptor().version, "9");
}
