use param_order::bus::{AuxiliaryIOConfig, BusConfig, BusNegotiator};
use param_order::error::PluginError;

#[test]
fn main_only_has_no_auxiliary_busses() {
    let config = BusConfig::main_only(2, 3);
    assert_eq!(config.num_input_channels, 2);
    assert_eq!(config.num_output_channels, 3);
    assert_eq!(config.aux_input_busses, None);
    assert_eq!(config.aux_output_busses, None);
}

#[test]
fn accepts_symmetric_layouts() {
    assert!(BusNegotiator.accepts(&BusConfig::main_only(1, 1)));
    assert!(BusNegotiator.accepts(&BusConfig::main_only(2, 2)));
    assert!(BusNegotiator.accepts(&BusConfig::main_only(6, 6)));
    assert!(BusNegotiator.accepts(&BusConfig::main_only(u32::MAX, u32::MAX)));
}

#[test]
fn rejects_empty_and_asymmetric_layouts() {
    assert!(!BusNegotiator.accepts(&BusConfig::main_only(0, 0)));
    assert!(!BusNegotiator.accepts(&BusConfig::main_only(1, 2)));
    assert!(!BusNegotiator.accepts(&BusConfig::main_only(2, 1)));
    assert!(!BusNegotiator.accepts(&BusConfig::main_only(0, 1)));
    assert!(!BusNegotiator.accepts(&BusConfig::main_only(1, 0)));
}

#[test]
fn auxiliary_busses_do_not_matter() {
    let aux = Some(AuxiliaryIOConfig { num_busses: 1, num_channels: 2 });
    let symmetric = BusConfig {
        num_input_channels: 2,
        num_output_channels: 2,
        aux_input_busses: aux,
        aux_output_busses: None,
    };
    assert!(BusNegotiator.accepts(&symmetric));
    let asymmetric = BusConfig {
        num_input_channels: 1,
        num_output_channels: 2,
        aux_input_busses: aux,
        aux_output_busses: aux,
    };
    assert!(!BusNegotiator.accepts(&asymmetric));
}

#[test]
fn negotiate_hands_back_what_it_accepted() {
    let config = BusConfig::main_only(6, 6);
    let accepted = BusNegotiator.negotiate(config).unwrap();
    assert_eq!(accepted.config(), config);
}

#[test]
fn negotiate_rejects_with_bus_config_rejected() {
    for (inputs, outputs) in [(0, 0), (1, 2), (2, 1)] {
        let outcome = BusNegotiator.negotiate(BusConfig::main_only(inputs, outputs));
        assert_eq!(outcome.err(), Some(PluginError::BusConfigRejected));
    }
}
