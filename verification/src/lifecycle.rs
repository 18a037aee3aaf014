//! The life of a plugin instance, from construction to teardown.
//!
//! A host proposes channel layouts until the plugin accepts one, activates
//! the plugin, runs processing cycles, and tears the plugin down. There is
//! no way back: layouts are not renegotiated while the plugin processes, and
//! an instance that was torn down stays so.

use vstd::prelude::*;
use crate::bus::{AcceptedBusConfig, BusConfig, BusNegotiator};
use crate::engine::{ProcessStatus, ProcessingEngine};
use crate::error::PluginError;
use crate::listing::{all_wf, declares, keys_distinct, position};
use crate::metadata::PluginDescriptor;
use crate::parameter::DescriptorView;
use crate::registry::ParameterRegistry;

verus! {

/// Where a plugin instance stands in its life.
#[derive(Clone, Copy, Debug, PartialEq, Eq, Structural)]
pub enum LifecycleState {
    /// Constructed; no channel layout has been accepted yet.
    Uninitialized,
    /// A channel layout has been accepted.
    Configured,
    /// Activated; the host runs processing cycles.
    Processing,
    /// Torn down; the parameters are gone.
    Deactivated,
}

/// What a host may ask of a plugin instance.
#[derive(Clone, Copy, Debug, PartialEq, Eq, Structural)]
pub enum HostCall {
    /// Work with this channel layout.
    ProposeBusConfig(BusConfig),
    /// Get ready to process.
    Activate,
    /// Process one block of audio.
    Process,
    /// Stop for good.
    Deactivate,
}

/// The state that follows `state` when the host makes `call`, or `None` when
/// the host may not make that call in that state.
pub open spec fn transition(state: LifecycleState, call: HostCall) -> Option<LifecycleState> {
    match (state, call) {
        (LifecycleState::Uninitialized, HostCall::ProposeBusConfig(config)) => Some(
            if config.is_symmetric() {
                LifecycleState::Configured
            } else {
                LifecycleState::Uninitialized
            },
        ),
        (LifecycleState::Configured, HostCall::Activate) => Some(LifecycleState::Processing),
        (LifecycleState::Processing, HostCall::Process) => Some(LifecycleState::Processing),
        (LifecycleState::Processing, HostCall::Deactivate) => Some(LifecycleState::Deactivated),
        _ => None,
    }
}

impl LifecycleState {
    /// How far along its life an instance in this state is.
    pub open spec fn stage(self) -> nat {
        match self {
            LifecycleState::Uninitialized => 0,
            LifecycleState::Configured => 1,
            LifecycleState::Processing => 2,
            LifecycleState::Deactivated => 3,
        }
    }

    /// The state that follows this one when the host makes `call`, or `None`
    /// when the host may not make that call now.
    pub fn after(self, call: HostCall) -> (next: Option<LifecycleState>)
        ensures
            next == transition(self, call),
    {
        match self {
            LifecycleState::Uninitialized => match call {
                HostCall::ProposeBusConfig(config) => if BusNegotiator.accepts(&config) {
                    Some(LifecycleState::Configured)
                } else {
                    Some(LifecycleState::Uninitialized)
                },
                _ => None,
            },
            LifecycleState::Configured => match call {
                HostCall::Activate => Some(LifecycleState::Processing),
                _ => None,
            },
            LifecycleState::Processing => match call {
                HostCall::Process => Some(LifecycleState::Processing),
                HostCall::Deactivate => Some(LifecycleState::Deactivated),
                _ => None,
            },
            LifecycleState::Deactivated => None,
        }
    }
}

/// An instance only ever moves forward, one stage at a time; a layout is
/// proposed only before one was accepted, and nothing may be asked of an
/// instance that was torn down.
pub proof fn lemma_lifecycle_moves_forward(state: LifecycleState, call: HostCall)
    ensures
        transition(state, call) matches Some(next) ==> state.stage() <= next.stage()
            <= state.stage() + 1,
        call is ProposeBusConfig && state != LifecycleState::Uninitialized ==> transition(
            state,
            call,
        ) is None,
        state == LifecycleState::Deactivated ==> transition(state, call) is None,
{
}

/// What a [`PluginInstance`] holds, as mathematical values.
pub struct InstanceView {
    /// Where the instance stands in its life.
    pub state: LifecycleState,
    /// The accepted channel layout, once there is one.
    pub bus: Option<BusConfig>,
    /// The parameters in host order, until the instance is torn down.
    pub parameters: Option<Seq<DescriptorView>>,
    /// What the plugin tells hosts about itself.
    pub descriptor: PluginDescriptor,
}

impl InstanceView {
    /// An instance has parameters until it is torn down, and an accepted
    /// layout from the moment it is configured until then; the layout is one
    /// the plugin works with, and the parameters form a well-formed registry.
    pub open spec fn wf(self) -> bool {
        &&& self.parameters is None <==> self.state == LifecycleState::Deactivated
        &&& self.bus is Some <==> (self.state == LifecycleState::Configured || self.state
            == LifecycleState::Processing)
        &&& self.bus matches Some(config) ==> config.is_symmetric()
        &&& self.parameters matches Some(flat) ==> keys_distinct(flat) && all_wf(flat)
    }

    /// Whether the instance has a parameter that carries `key`.
    pub open spec fn declares(self, key: Seq<char>) -> bool {
        self.parameters matches Some(flat) && declares(flat, key)
    }

    /// The description of the parameter that carries `key`.
    pub open spec fn parameter(self, key: Seq<char>) -> DescriptorView
        recommends
            self.declares(key),
    {
        self.parameters->Some_0[position(self.parameters->Some_0, key)]
    }

    /// The instance after `value` was assigned to the parameter that carries
    /// `key`.
    pub open spec fn assigned(self, key: Seq<char>, value: i32) -> InstanceView
        recommends
            self.declares(key),
    {
        InstanceView {
            parameters: Some(
                self.parameters->Some_0.update(
                    position(self.parameters->Some_0, key),
                    self.parameter(key).assigned(value),
                ),
            ),
            ..self
        }
    }
}

#[derive(Debug)]
enum Phase {
    Uninitialized { registry: ParameterRegistry },
    Configured { registry: ParameterRegistry, bus: AcceptedBusConfig },
    Processing { registry: ParameterRegistry, engine: ProcessingEngine },
    Deactivated,
}

/// One instance of a plugin.
///
/// The instance owns its parameters. It holds them from construction until
/// teardown, when they are dropped for good: an instance cannot be brought
/// back, and a host that wants to go on constructs another.
#[derive(Debug)]
pub struct PluginInstance {
    descriptor: PluginDescriptor,
    phase: Phase,
}

impl View for PluginInstance {
    type V = InstanceView;

    closed spec fn view(&self) -> InstanceView {
        match self.phase {
            Phase::Uninitialized { registry } => InstanceView {
                state: LifecycleState::Uninitialized,
                bus: None,
                parameters: Some(registry@),
                descriptor: self.descriptor,
            },
            Phase::Configured { registry, bus } => InstanceView {
                state: LifecycleState::Configured,
                bus: Some(bus@),
                parameters: Some(registry@),
                descriptor: self.descriptor,
            },
            Phase::Processing { registry, engine } => InstanceView {
                state: LifecycleState::Processing,
                bus: Some(engine.bus()),
                parameters: Some(registry@),
                descriptor: self.descriptor,
            },
            Phase::Deactivated => InstanceView {
                state: LifecycleState::Deactivated,
                bus: None,
                parameters: None,
                descriptor: self.descriptor,
            },
        }
    }
}

impl PluginInstance {
    /// A new instance that describes itself by `descriptor` and owns
    /// `registry`.
    pub fn new(descriptor: PluginDescriptor, registry: ParameterRegistry) -> (instance:
        PluginInstance)
        ensures
            instance@ == (InstanceView {
                state: LifecycleState::Uninitialized,
                bus: None,
                parameters: Some(registry@),
                descriptor,
            }),
            instance@.wf(),
    {
        proof {
            use_type_invariant(&registry);
        }
        PluginInstance { descriptor, phase: Phase::Uninitialized { registry } }
    }

    /// Where the instance stands in its life.
    pub fn lifecycle_state(&self) -> (state: LifecycleState)
        ensures
            state == self@.state,
            self@.wf(),
    {
        match &self.phase {
            Phase::Uninitialized { registry } => {
                proof {
                    use_type_invariant(registry);
                }
                LifecycleState::Uninitialized
            },
            Phase::Configured { registry, bus } => {
                proof {
                    use_type_invariant(registry);
                    use_type_invariant(bus);
                }
                LifecycleState::Configured
            },
            Phase::Processing { registry, engine } => {
                proof {
                    use_type_invariant(registry);
                    use_type_invariant(engine);
                }
                LifecycleState::Processing
            },
            Phase::Deactivated => LifecycleState::Deactivated,
        }
    }

    /// What the plugin tells hosts about itself. Never changes.
    pub fn descriptor(&self) -> (descriptor: PluginDescriptor)
        ensures
            descriptor == self@.descriptor,
    {
        self.descriptor
    }

    /// The accepted channel layout, once there is one.
    pub fn bus_config(&self) -> (config: Option<BusConfig>)
        ensures
            config == self@.bus,
    {
        match &self.phase {
            Phase::Configured { bus, .. } => Some(bus.config()),
            Phase::Processing { engine, .. } => Some(engine.bus_config()),
            _ => None,
        }
    }

    /// The parameters, until the instance is torn down. Host and engine
    /// share them through this borrow; neither owns them.
    pub fn params(&self) -> (params: Option<&ParameterRegistry>)
        ensures
            params matches Some(registry) ==> self@.parameters == Some(registry@) && registry.wf(),
            params is None ==> self@.parameters is None,
    {
        match &self.phase {
            Phase::Uninitialized { registry } => {
                proof {
                    use_type_invariant(registry);
                }
                Some(registry)
            },
            Phase::Configured { registry, .. } => {
                proof {
                    use_type_invariant(registry);
                }
                Some(registry)
            },
            Phase::Processing { registry, .. } => {
                proof {
                    use_type_invariant(registry);
                }
                Some(registry)
            },
            Phase::Deactivated => None,
        }
    }

    /// The value of the parameter that carries `key`.
    ///
    /// Fails with [`PluginError::ParameterNotFound`] when no parameter
    /// carries `key`, as is the case of every key once the instance is torn
    /// down.
    pub fn parameter_value(&self, key: &str) -> (outcome: Result<i32, PluginError>)
        ensures
            self@.declares(key@) ==> outcome is Ok && outcome->Ok_0 == self@.parameter(key@).value,
            !self@.declares(key@) ==> outcome is Err && outcome->Err_0
                == PluginError::ParameterNotFound,
    {
        match self.params() {
            Some(registry) => registry.value(key),
            None => Err(PluginError::ParameterNotFound),
        }
    }

    /// Assigns `value`, clamped to its range, to the parameter that carries
    /// `key`. Nothing else about the instance changes.
    ///
    /// Fails with [`PluginError::ParameterNotFound`], and changes nothing,
    /// when no parameter carries `key`, as is the case of every key once the
    /// instance is torn down.
    pub fn set_parameter(&mut self, key: &str, value: i32) -> (outcome: Result<(), PluginError>)
        ensures
            old(self)@.declares(key@) ==> outcome is Ok && final(self)@ == old(self)@.assigned(
                key@,
                value,
            ),
            !old(self)@.declares(key@) ==> outcome is Err && outcome->Err_0
                == PluginError::ParameterNotFound && final(self)@ == old(self)@,
            final(self)@.wf(),
    {
        match &mut self.phase {
            Phase::Uninitialized { registry } => registry.set_value(key, value),
            Phase::Configured { registry, bus } => {
                proof {
                    use_type_invariant(&*bus);
                }
                registry.set_value(key, value)
            },
            Phase::Processing { registry, engine } => {
                proof {
                    use_type_invariant(&*engine);
                }
                registry.set_value(key, value)
            },
            Phase::Deactivated => Err(PluginError::ParameterNotFound),
        }
    }

    /// Proposes the channel layout `config`. If the plugin works with it,
    /// the instance is configured; if not, the instance stays as it was and
    /// the host may propose another.
    ///
    /// Fails with [`PluginError::BusConfigRejected`] when the plugin does not
    /// work with `config`.
    pub fn propose_bus_config(&mut self, config: BusConfig) -> (outcome: Result<(), PluginError>)
        requires
            old(self)@.state == LifecycleState::Uninitialized,
        ensures
            Some(final(self)@.state) == transition(
                old(self)@.state,
                HostCall::ProposeBusConfig(config),
            ),
            config.is_symmetric() ==> outcome is Ok && final(self)@ == (InstanceView {
                state: LifecycleState::Configured,
                bus: Some(config),
                ..old(self)@
            }),
            !config.is_symmetric() ==> outcome is Err && outcome->Err_0
                == PluginError::BusConfigRejected && final(self)@ == old(self)@,
            final(self)@.wf(),
    {
        match BusNegotiator.negotiate(config) {
            Ok(bus) => {
                let mut phase = Phase::Deactivated;
                std::mem::swap(&mut self.phase, &mut phase);
                match phase {
                    Phase::Uninitialized { registry } => {
                        proof {
                            use_type_invariant(&registry);
                        }
                        self.phase = Phase::Configured { registry, bus };
                    },
                    _ => {},
                }
                Ok(())
            },
            Err(e) => {
                match &self.phase {
                    Phase::Uninitialized { registry } => {
                        proof {
                            use_type_invariant(registry);
                        }
                    },
                    _ => {},
                }
                Err(e)
            },
        }
    }

    /// Activates the instance: from now on the host runs processing cycles,
    /// and the channel layout stays what it is.
    pub fn activate(&mut self)
        requires
            old(self)@.state == LifecycleState::Configured,
        ensures
            Some(final(self)@.state) == transition(old(self)@.state, HostCall::Activate),
            final(self)@ == (InstanceView { state: LifecycleState::Processing, ..old(self)@ }),
            final(self)@.wf(),
    {
        let mut phase = Phase::Deactivated;
        std::mem::swap(&mut self.phase, &mut phase);
        match phase {
            Phase::Configured { registry, bus } => {
                proof {
                    use_type_invariant(&registry);
                    use_type_invariant(&bus);
                }
                self.phase = Phase::Processing { registry, engine: ProcessingEngine::new(bus) };
            },
            _ => {},
        }
    }

    /// Runs one processing cycle on `buffer`, with the auxiliary buffers
    /// `aux` and the host's `context` for this cycle. The audio passes
    /// through as it came, the instance stays as it is, and the cycle ends
    /// as [`ProcessStatus::Normal`].
    pub fn process<B, A, C>(&mut self, buffer: &mut B, aux: &mut A, context: &mut C) -> (status:
        ProcessStatus)
        requires
            old(self)@.state == LifecycleState::Processing,
        ensures
            status == ProcessStatus::Normal,
            Some(final(self)@.state) == transition(old(self)@.state, HostCall::Process),
            final(self)@ == old(self)@,
            *final(buffer) == *old(buffer),
            *final(aux) == *old(aux),
            *final(context) == *old(context),
            final(self)@.wf(),
    {
        match &mut self.phase {
            Phase::Processing { registry, engine } => {
                proof {
                    use_type_invariant(&*registry);
                    use_type_invariant(&*engine);
                }
                engine.process(buffer, aux, context)
            },
            _ => ProcessStatus::Normal,
        }
    }

    /// Tears the instance down. Its parameters and its channel layout are
    /// dropped, and nothing more can be asked of it.
    pub fn deactivate(&mut self)
        requires
            old(self)@.state == LifecycleState::Processing,
        ensures
            Some(final(self)@.state) == transition(old(self)@.state, HostCall::Deactivate),
            final(self)@ == (InstanceView {
                state: LifecycleState::Deactivated,
                bus: None,
                parameters: None,
                descriptor: old(self)@.descriptor,
            }),
            final(self)@.wf(),
    {
        self.phase = Phase::Deactivated;
    }
}

} // verus!
