//! One created plugin object and its lifecycle.

use vstd::prelude::*;
use vstd::string::*;
use crate::base::{kResultOk, tresult};
use crate::error::{Error, ErrorKind};

verus! {

/// Where a component instance stands in its life.
#[derive(Clone, Copy, Debug, PartialEq, Eq, Structural)]
pub enum InstanceState {
    /// The object exists and offers the component capability.
    Created,
    /// The component was initialized with the host context.
    Initialized,
    /// The component is active.
    Active,
    /// The component was active and is not any more.
    Inactive,
    /// The component gave up what it held.
    Terminated,
    /// The handles to the object were released.
    Disposed,
}

/// One thing asked of a component.
#[derive(Clone, Copy, Debug, PartialEq, Eq, Structural)]
pub enum ComponentCall {
    /// Initialize the component with the host context.
    Initialize,
    /// Switch the component on or off.
    SetActive(bool),
    /// Have the component give up what it holds.
    Terminate,
    /// Release the handles to the object.
    Release,
}

/// One created plugin object: the class it was created from, the plugin
/// that owns the class, and how far its life has come.
pub struct Instance {
    pub class_id: String,
    pub plugin: String,
    pub state: InstanceState,
}

/// What an [`Instance`] holds.
pub struct InstanceView {
    pub class_id: Seq<char>,
    pub plugin: Seq<char>,
    pub state: InstanceState,
}

impl View for Instance {
    type V = InstanceView;

    open spec fn view(&self) -> InstanceView {
        InstanceView { class_id: self.class_id@, plugin: self.plugin@, state: self.state }
    }
}

/// The state after the component was asked to initialize and answered with
/// `status`: initialization is open only to a fresh component and takes it
/// to `Initialized` if it succeeds.
pub open spec fn initialized(state: InstanceState, status: tresult) -> InstanceState {
    if state == InstanceState::Created && status == kResultOk {
        InstanceState::Initialized
    } else {
        state
    }
}

/// Whether the component can be switched on or off in this state.
pub open spec fn can_switch(state: InstanceState) -> bool {
    state == InstanceState::Initialized || state == InstanceState::Active || state
        == InstanceState::Inactive
}

/// The state after the component was asked to switch on or off and answered
/// with `status`.
pub open spec fn switched(state: InstanceState, active: bool, status: tresult) -> InstanceState {
    if can_switch(state) && status == kResultOk {
        if active {
            InstanceState::Active
        } else if state == InstanceState::Initialized {
            InstanceState::Initialized
        } else {
            InstanceState::Inactive
        }
    } else {
        state
    }
}

/// Whether the component can be terminated in this state.
pub open spec fn can_terminate(state: InstanceState) -> bool {
    state == InstanceState::Initialized || state == InstanceState::Inactive
}

/// The state after the component was asked to terminate and answered with
/// `status`.
pub open spec fn terminated(state: InstanceState, status: tresult) -> InstanceState {
    if can_terminate(state) && status == kResultOk {
        InstanceState::Terminated
    } else {
        state
    }
}

/// The calls that tear a component down from the given state, in order,
/// whatever each of them answers: it is switched off if it may be active,
/// terminated if it was ever initialized, and its handles are released last.
/// A disposed component asks for nothing.
pub open spec fn teardown_calls(state: InstanceState) -> Seq<ComponentCall> {
    match state {
        InstanceState::Created | InstanceState::Terminated => seq![ComponentCall::Release],
        InstanceState::Initialized | InstanceState::Active | InstanceState::Inactive => seq![
            ComponentCall::SetActive(false),
            ComponentCall::Terminate,
            ComponentCall::Release,
        ],
        InstanceState::Disposed => seq![],
    }
}

impl Instance {
    /// Wraps a freshly created object. The object must offer the component
    /// capability; one that does not is of no use.
    pub fn new(plugin: &str, component_present: bool, class_id: &str) -> (r: Result<Self, Error>)
        ensures
            match r {
                Ok(instance) => component_present && instance@ == (InstanceView {
                    class_id: class_id@,
                    plugin: plugin@,
                    state: InstanceState::Created,
                }),
                Err(e) => !component_present && e.is(
                    ErrorKind::InterfaceNotSupported,
                    "failed to query component interface",
                ),
            },
    {
        if !component_present {
            return Err(
                Error::new(ErrorKind::InterfaceNotSupported, "failed to query component interface"),
            );
        }
        Ok(
            Self {
                class_id: class_id.to_owned(),
                plugin: plugin.to_owned(),
                state: InstanceState::Created,
            },
        )
    }

    pub fn class_id(&self) -> (id: &str)
        ensures
            id@ == self.class_id@,
    {
        self.class_id.as_str()
    }

    /// The identity of the plugin that owns the class of this instance.
    pub fn get_plugin(&self) -> (id: &str)
        ensures
            id@ == self.plugin@,
    {
        self.plugin.as_str()
    }

    pub fn state(&self) -> (s: InstanceState)
        ensures
            s == self.state,
    {
        self.state
    }

    /// Records the answer to [`ComponentCall::Initialize`].
    ///
    /// Only a fresh component may be initialized, and only once: in any
    /// other state the call is rejected. A component that refuses stays
    /// fresh.
    pub fn initialize(&mut self, status: tresult) -> (r: Result<(), Error>)
        ensures
            final(self).class_id == old(self).class_id,
            final(self).plugin == old(self).plugin,
            final(self).state == initialized(old(self).state, status),
            r is Ok <==> (old(self).state == InstanceState::Created && status == kResultOk),
            r matches Err(e) ==> if old(self).state != InstanceState::Created {
                e.is(ErrorKind::PreconditionFailed, "component cannot be initialized in this state")
            } else {
                e.is(ErrorKind::InitializationFailed, "failed to initialize component")
            },
    {
        if !matches!(self.state, InstanceState::Created) {
            return Err(
                Error::new(
                    ErrorKind::PreconditionFailed,
                    "component cannot be initialized in this state",
                ),
            );
        }
        if status != kResultOk {
            return Err(
                Error::new(ErrorKind::InitializationFailed, "failed to initialize component"),
            );
        }
        self.state = InstanceState::Initialized;
        Ok(())
    }

    /// Records the answer to [`ComponentCall::Terminate`].
    ///
    /// Termination is open to a component that is initialized and not
    /// active. A component that refuses stays as it was.
    pub fn terminate(&mut self, status: tresult) -> (r: Result<(), Error>)
        ensures
            final(self).class_id == old(self).class_id,
            final(self).plugin == old(self).plugin,
            final(self).state == terminated(old(self).state, status),
            r is Ok <==> (can_terminate(old(self).state) && status == kResultOk),
            r matches Err(e) ==> if !can_terminate(old(self).state) {
                e.is(ErrorKind::PreconditionFailed, "component cannot be terminated in this state")
            } else {
                e.is(ErrorKind::CallFailed, "failed to terminate component")
            },
    {
        let open = matches!(self.state, InstanceState::Initialized | InstanceState::Inactive);
        if !open {
            return Err(
                Error::new(
                    ErrorKind::PreconditionFailed,
                    "component cannot be terminated in this state",
                ),
            );
        }
        if status != kResultOk {
            return Err(Error::new(ErrorKind::CallFailed, "failed to terminate component"));
        }
        self.state = InstanceState::Terminated;
        Ok(())
    }

    /// Records the answer to [`ComponentCall::SetActive`].
    ///
    /// A component can be switched once it is initialized and until it is
    /// terminated. Switching off a component that was never active leaves it
    /// initialized.
    pub fn set_active(&mut self, active: bool, status: tresult) -> (r: Result<(), Error>)
        ensures
            final(self).class_id == old(self).class_id,
            final(self).plugin == old(self).plugin,
            final(self).state == switched(old(self).state, active, status),
            r is Ok <==> (can_switch(old(self).state) && status == kResultOk),
            r matches Err(e) ==> if !can_switch(old(self).state) {
                e.is(ErrorKind::PreconditionFailed, "component cannot be switched in this state")
            } else {
                e.is(ErrorKind::CallFailed, "failed to activate component")
            },
    {
        let open = matches!(
            self.state,
            InstanceState::Initialized | InstanceState::Active | InstanceState::Inactive
        );
        if !open {
            return Err(
                Error::new(
                    ErrorKind::PreconditionFailed,
                    "component cannot be switched in this state",
                ),
            );
        }
        if status != kResultOk {
            return Err(Error::new(ErrorKind::CallFailed, "failed to activate component"));
        }
        if active {
            self.state = InstanceState::Active;
        } else if !matches!(self.state, InstanceState::Initialized) {
            self.state = InstanceState::Inactive;
        }
        Ok(())
    }

    /// Tears the component down. The calls to make are returned in their
    /// order; each is made whatever the one before it answered. Afterwards
    /// the instance is disposed, and disposing it again asks for nothing.
    pub fn dispose(&mut self) -> (calls: Vec<ComponentCall>)
        ensures
            final(self).class_id == old(self).class_id,
            final(self).plugin == old(self).plugin,
            final(self).state == InstanceState::Disposed,
            calls@ == teardown_calls(old(self).state),
    {
        let mut calls: Vec<ComponentCall> = Vec::new();
        match self.state {
            InstanceState::Created | InstanceState::Terminated => {
                calls.push(ComponentCall::Release);
            },
            InstanceState::Initialized | InstanceState::Active | InstanceState::Inactive => {
                calls.push(ComponentCall::SetActive(false));
                calls.push(ComponentCall::Terminate);
                calls.push(ComponentCall::Release);
            },
            InstanceState::Disposed => {},
        }
        assert(calls@ =~= teardown_calls(self.state));
        self.state = InstanceState::Disposed;
        calls
    }

    /// Judges the answer to the query for the class of the component's
    /// edit controller.
    pub fn get_controller_class_id(&self, status: tresult, cid: crate::guid::GUID) -> (r: Result<crate::guid::GUID, Error>)
        ensures
            match r {
                Ok(g) => status == kResultOk && g == cid,
                Err(e) => status != kResultOk && e.is(
                    ErrorKind::CallFailed,
                    "failed to get controller class id",
                ),
            },
    {
        if status != kResultOk {
            return Err(
                Error::new(ErrorKind::CallFailed, "failed to get controller class id"),
            );
        }
        Ok(cid)
    }
}

impl Instance {
    /// Whether the factory of the owning plugin may be asked for another
    /// object: only while the plugin's library is held.
    pub fn create_class_instance(&self, plugin_loaded: bool) -> (r: Result<(), Error>)
        ensures
            match r {
                Ok(()) => plugin_loaded,
                Err(e) => !plugin_loaded && e.is(ErrorKind::PreconditionFailed, "plugin not loaded"),
            },
    {
        if !plugin_loaded {
            return Err(Error::new(ErrorKind::PreconditionFailed, "plugin not loaded"));
        }
        Ok(())
    }

    /// Judges the query for the audio-processing capability.
    pub fn query_audio_processor_intf(&self, present: bool) -> (r: Result<(), Error>)
        ensures
            match r {
                Ok(()) => present,
                Err(e) => !present && e.is(
                    ErrorKind::InterfaceNotSupported,
                    "failed to query audio processor interface",
                ),
            },
    {
        if !present {
            return Err(
                Error::new(
                    ErrorKind::InterfaceNotSupported,
                    "failed to query audio processor interface",
                ),
            );
        }
        Ok(())
    }

    /// Judges the cast of a separately created controller object to the
    /// edit-controller capability.
    pub fn create_edit_controller_intf(&self, present: bool) -> (r: Result<(), Error>)
        ensures
            match r {
                Ok(()) => present,
                Err(e) => !present && e.is(
                    ErrorKind::InterfaceNotSupported,
                    "failed to get controller interface",
                ),
            },
    {
        if !present {
            return Err(
                Error::new(ErrorKind::InterfaceNotSupported, "failed to get controller interface"),
            );
        }
        Ok(())
    }

    /// Judges the query for the edit-controller capability of the component
    /// itself.
    pub fn query_edit_controller_intf(&self, present: bool) -> (r: Result<(), Error>)
        ensures
            match r {
                Ok(()) => present,
                Err(e) => !present && e.is(
                    ErrorKind::InterfaceNotSupported,
                    "instance does not provide edit controller interface",
                ),
            },
    {
        if !present {
            return Err(
                Error::new(
                    ErrorKind::InterfaceNotSupported,
                    "instance does not provide edit controller interface",
                ),
            );
        }
        Ok(())
    }

    /// Judges the query for the capability that tells which parts of the
    /// transport record the plugin needs.
    pub fn query_process_context_requirements_intf(&self, present: bool) -> (r: Result<(), Error>)
        ensures
            match r {
                Ok(()) => present,
                Err(e) => !present && e.is(
                    ErrorKind::InterfaceNotSupported,
                    "failed to query process context requirements interface",
                ),
            },
    {
        if !present {
            return Err(
                Error::new(
                    ErrorKind::InterfaceNotSupported,
                    "failed to query process context requirements interface",
                ),
            );
        }
        Ok(())
    }
}

/// A disposed component asks for nothing when it is disposed again, and
/// stays disposed whatever it is told.
pub proof fn lemma_disposed_is_final(status: tresult, active: bool)
    ensures
        teardown_calls(InstanceState::Disposed) == Seq::<ComponentCall>::empty(),
        initialized(InstanceState::Disposed, status) == InstanceState::Disposed,
        switched(InstanceState::Disposed, active, status) == InstanceState::Disposed,
        terminated(InstanceState::Disposed, status) == InstanceState::Disposed,
{
}

/// A component is never active before it was initialized, and never active
/// after it was terminated: no answer takes a fresh, terminated or disposed
/// component to the active state.
pub proof fn lemma_activation_needs_initialization(state: InstanceState, active: bool, status: tresult)
    requires
        state == InstanceState::Created || state == InstanceState::Terminated || state
            == InstanceState::Disposed,
    ensures
        switched(state, active, status) == state,
        terminated(state, status) == state,
        state != InstanceState::Created ==> initialized(state, status) == state,
{
}

} // verus!
