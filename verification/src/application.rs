//! The application: the registry, the host, the audio device, the window
//! and the loaded instrument, and the order in which a session is built up
//! and torn down.

use vstd::prelude::*;
use vstd::string::*;
use vstd::view::View as _;
use crate::audio::{close_calls, stop_calls, Audio, AudioCall, AudioCallbackInfo, AudioFormatInfo};
use crate::audio_processor::{clip_i32, clipped_i32, process_setup_for, ProcessSetup, ProcessorCall};
use crate::base::{kResultOk, tresult};
use crate::edit_controller::ControllerCall;
use crate::error::{Error, ErrorKind};
use crate::host::Host;
use crate::instance::{can_switch, initialized, switched, teardown_calls, ComponentCall, Instance, InstanceState, InstanceView};
use crate::instrument::{instrument_dispose_calls, AudioBusBuffers, Instrument, InstrumentCall, ProcessData};
use crate::plugin::{ModuleCall, Plugin, PluginInfo};
use crate::registry::{class_index, registered, unload_calls, unreferenced, CreateRequest, Registry};
use crate::strmap::{has_key, value_of, StrMap};
use crate::time::TimingContext;
use crate::view::{View, ViewCall};
use crate::window::{detach_calls, window_close_calls, Window, WindowCall};

verus! {

/// One thing that the application asks of the world around it.
#[derive(Clone, Copy, Debug, PartialEq, Eq, Structural)]
pub enum HostCall {
    /// Load the plugin library that the pending request names, and answer
    /// with [`Application::plugin_loaded`].
    LoadPlugin,
    /// Ask the plugin's factory for an object of the class that the pending
    /// request names, and the object for the component capability; answer
    /// with [`Application::instance_created`].
    CreateInstance,
    /// Ask the host's callback object for its base interface.
    GetHostContext,
    /// Build the instrument for the component, and answer with
    /// [`Application::instrument_built`].
    BuildInstrument,
    /// A call on the plugin's library.
    Module(ModuleCall),
    /// A call on the component.
    Component(ComponentCall),
    /// A call on the instrument's processor or controller.
    Instrument(InstrumentCall),
    /// A call on the window or the view it shows.
    Window(WindowCall),
    /// A call on the audio driver.
    Audio(AudioCall),
}

/// What the application wants next.
pub enum HostStep {
    /// Make this call and come back with its outcome.
    Call(HostCall),
    /// What was asked for is done.
    Done,
    /// What was asked for failed. The calls beside the error undo what the
    /// failed step had taken; whatever else was built stays and is torn
    /// down by [`Application::unload_instrument`].
    Failed(Error, Vec<HostCall>),
}

/// How far the loading or the activation of an instrument has come: the
/// call whose answer is awaited.
#[derive(Clone, Copy, Debug, PartialEq, Eq, Structural)]
pub enum AppStage {
    Idle,
    LoadingPlugin,
    CreatingInstance,
    GettingContext,
    Initializing,
    Building,
    CreatingView,
    SettingFrame,
    AttachingView,
    Stopping,
    Negotiating,
    Switching,
    QueryingLatency,
    Starting,
}

/// The application.
pub struct Application {
    pub registry: Registry,
    pub host: Host,
    pub timing: TimingContext,
    pub audio: Option<Audio>,
    pub instance: Option<Instance>,
    pub instrument: Option<Instrument>,
    pub window: Option<Box<Window>>,
    pub stage: AppStage,
    pub request: Option<CreateRequest>,
    pub class_id: String,
    pub target_active: bool,
    /// Whether the plugin has accepted the processing setup since
    /// processing was last stopped.
    pub negotiated: bool,
    pub pending_view: Option<View>,
}

/// Calls on the plugin's library, as calls of the application.
pub open spec fn module_calls(calls: Seq<ModuleCall>) -> Seq<HostCall> {
    Seq::new(calls.len(), |i: int| HostCall::Module(calls[i]))
}

/// Calls on the component, as calls of the application.
pub open spec fn component_calls(calls: Seq<ComponentCall>) -> Seq<HostCall> {
    Seq::new(calls.len(), |i: int| HostCall::Component(calls[i]))
}

/// Calls on the instrument, as calls of the application.
pub open spec fn instrument_calls(calls: Seq<InstrumentCall>) -> Seq<HostCall> {
    Seq::new(calls.len(), |i: int| HostCall::Instrument(calls[i]))
}

/// Calls on the window, as calls of the application.
pub open spec fn window_calls(calls: Seq<WindowCall>) -> Seq<HostCall> {
    Seq::new(calls.len(), |i: int| HostCall::Window(calls[i]))
}

/// Calls on the audio driver, as calls of the application.
pub open spec fn audio_calls(calls: Seq<AudioCall>) -> Seq<HostCall> {
    Seq::new(calls.len(), |i: int| HostCall::Audio(calls[i]))
}

/// The call that switches the instrument's processing off.
pub open spec fn stop_processing() -> HostCall {
    HostCall::Instrument(InstrumentCall::Processor(ProcessorCall::SetProcessing(false)))
}

fn push_module(out: &mut Vec<HostCall>, calls: &Vec<ModuleCall>)
    ensures
        final(out)@ == old(out)@ + module_calls(calls@),
{
    let ghost start = out@;
    let mut i: usize = 0;
    while i < calls.len()
        invariant
            i <= calls.len(),
            out@ == start + module_calls(calls@.take(i as int)),
        decreases calls.len() - i,
    {
        out.push(HostCall::Module(calls[i]));
        i += 1;
        assert(out@ =~= start + module_calls(calls@.take(i as int)));
    }
    assert(calls@.take(calls.len() as int) =~= calls@);
}

fn push_component(out: &mut Vec<HostCall>, calls: &Vec<ComponentCall>)
    ensures
        final(out)@ == old(out)@ + component_calls(calls@),
{
    let ghost start = out@;
    let mut i: usize = 0;
    while i < calls.len()
        invariant
            i <= calls.len(),
            out@ == start + component_calls(calls@.take(i as int)),
        decreases calls.len() - i,
    {
        out.push(HostCall::Component(calls[i]));
        i += 1;
        assert(out@ =~= start + component_calls(calls@.take(i as int)));
    }
    assert(calls@.take(calls.len() as int) =~= calls@);
}

fn push_instrument(out: &mut Vec<HostCall>, calls: &Vec<InstrumentCall>)
    ensures
        final(out)@ == old(out)@ + instrument_calls(calls@),
{
    let ghost start = out@;
    let mut i: usize = 0;
    while i < calls.len()
        invariant
            i <= calls.len(),
            out@ == start + instrument_calls(calls@.take(i as int)),
        decreases calls.len() - i,
    {
        out.push(HostCall::Instrument(calls[i]));
        i += 1;
        assert(out@ =~= start + instrument_calls(calls@.take(i as int)));
    }
    assert(calls@.take(calls.len() as int) =~= calls@);
}

fn push_window(out: &mut Vec<HostCall>, calls: &Vec<WindowCall>)
    ensures
        final(out)@ == old(out)@ + window_calls(calls@),
{
    let ghost start = out@;
    let mut i: usize = 0;
    while i < calls.len()
        invariant
            i <= calls.len(),
            out@ == start + window_calls(calls@.take(i as int)),
        decreases calls.len() - i,
    {
        out.push(HostCall::Window(calls[i]));
        i += 1;
        assert(out@ =~= start + window_calls(calls@.take(i as int)));
    }
    assert(calls@.take(calls.len() as int) =~= calls@);
}

fn push_audio(out: &mut Vec<HostCall>, calls: &Vec<AudioCall>)
    ensures
        final(out)@ == old(out)@ + audio_calls(calls@),
{
    let ghost start = out@;
    let mut i: usize = 0;
    while i < calls.len()
        invariant
            i <= calls.len(),
            out@ == start + audio_calls(calls@.take(i as int)),
        decreases calls.len() - i,
    {
        out.push(HostCall::Audio(calls[i]));
        i += 1;
        assert(out@ =~= start + audio_calls(calls@.take(i as int)));
    }
    assert(calls@.take(calls.len() as int) =~= calls@);
}

impl Application {
    /// Whether a view is shown in the window.
    pub open spec fn shows_view(&self) -> bool {
        self.window matches Some(w) && w.view is Some
    }

    /// The call that stops processing, if an instrument is loaded.
    pub open spec fn stop_part(&self) -> Seq<HostCall> {
        if self.instrument is Some {
            seq![stop_processing()]
        } else {
            seq![]
        }
    }

    /// The calls that take the view out of the window, if it shows one.
    pub open spec fn view_part(&self) -> Seq<HostCall> {
        window_calls(detach_calls(self.shows_view()))
    }

    /// The call that switches the component off, if there is one that was
    /// initialized and not terminated.
    pub open spec fn deactivate_part(&self) -> Seq<HostCall> {
        match self.instance {
            Some(instance) => if can_switch(instance.state) {
                seq![HostCall::Component(ComponentCall::SetActive(false))]
            } else {
                seq![]
            },
            None => seq![],
        }
    }

    /// The calls that give the instrument up, if one is loaded.
    pub open spec fn instrument_part(&self) -> Seq<HostCall> {
        match self.instrument {
            Some(instrument) => instrument_calls(
                instrument_dispose_calls(instrument.controller.is_instance),
            ),
            None => seq![],
        }
    }

    /// The calls that tear the component down and give its reference to the
    /// plugin back, if there is a component.
    pub open spec fn instance_part(&self) -> Seq<HostCall> {
        match self.instance {
            Some(instance) => component_calls(teardown_calls(instance.state)) + module_calls(
                unload_calls(self.registry.loaded(), instance.plugin@),
            ),
            None => seq![],
        }
    }

    /// The calls that unload the instrument, in their order. Processing is
    /// stopped; the view is taken out of the window; the component is
    /// switched off; the instrument is given up; the component is switched
    /// off once more, terminated and released; and the reference to the
    /// plugin is given back, which unloads the plugin if nothing else holds
    /// it. What is not there is passed over.
    pub open spec fn unload_script(&self) -> Seq<HostCall> {
        self.stop_part() + self.view_part() + self.deactivate_part() + self.instrument_part()
            + self.instance_part()
    }

    /// The calls that close the window once its view is taken out.
    pub open spec fn window_part(&self) -> Seq<HostCall> {
        match self.window {
            Some(w) => if w.hwnd {
                window_calls(window_close_calls(false))
            } else {
                seq![]
            },
            None => seq![],
        }
    }

    /// The calls that give the audio device up.
    pub open spec fn audio_part(&self) -> Seq<HostCall> {
        match self.audio {
            Some(a) => audio_calls(close_calls(a.driver, a.asio_callback_id)),
            None => seq![],
        }
    }

    /// Makes the application around the cache that a scan produced.
    pub fn new(cache: StrMap<PluginInfo>) -> (r: Result<Self, Error>)
        ensures
            r matches Ok(app) && app.registry.wf() && app.registry.cache() == cache@
                && app.registry.classes() == class_index(cache@) && app.registry.loaded().len()
                == 0 && app.audio is None && app.instance is None && app.instrument is None
                && app.window is None && app.stage == AppStage::Idle && !app.negotiated,
    {
        let mut registry = Registry::new();
        registry.init(cache);
        let host = match Host::new() {
            Ok(h) => h,
            Err(e) => {
                return Err(e);
            },
        };
        Ok(
            Self {
                registry,
                host,
                timing: TimingContext::default(),
                audio: None,
                instance: None,
                instrument: None,
                window: None,
                stage: AppStage::Idle,
                request: None,
                class_id: String::new(),
                target_active: false,
                negotiated: false,
                pending_view: None,
            },
        )
    }

    /// Unloads the instrument.
    ///
    /// The calls to make are returned in their order. Each is made whatever
    /// the one before it answered: the teardown always runs to its end, and
    /// the reference to the plugin is given back exactly once. Afterwards
    /// nothing is loaded, so that unloading again asks for nothing.
    pub fn unload_instrument(&mut self) -> (r: Result<Vec<HostCall>, Error>)
        ensures
            r matches Ok(calls) && calls@ == old(self).unload_script(),
            final(self).instance is None,
            final(self).instrument is None,
            final(self).pending_view is None,
            final(self).stage == AppStage::Idle,
            !final(self).negotiated,
            final(self).audio == old(self).audio,
            !final(self).shows_view(),
            final(self).window is Some == old(self).window is Some,
            final(self).window matches Some(w) ==> (old(self).window matches Some(o) && w.hwnd
                == o.hwnd && w.dpi_changing == o.dpi_changing && w.dpi_changed_size
                == o.dpi_changed_size),
            final(self).registry.wf(),
            final(self).registry.cache() == old(self).registry.cache(),
            final(self).registry.classes() == old(self).registry.classes(),
            final(self).registry.loaded() == match old(self).instance {
                Some(instance) => unreferenced(old(self).registry.loaded(), instance.plugin@),
                None => old(self).registry.loaded(),
            },
    {
        self.registry.validate();
        self.stage = AppStage::Idle;
        self.pending_view = None;
        self.request = None;
        self.negotiated = false;
        let mut calls: Vec<HostCall> = Vec::new();
        if self.instrument.is_some() {
            calls.push(
                HostCall::Instrument(InstrumentCall::Processor(ProcessorCall::SetProcessing(false))),
            );
        }
        assert(calls@ =~= old(self).stop_part());
        let mut view_part: Vec<HostCall> = Vec::new();
        match self.window.take() {
            Some(mut window) => {
                let detach = match window.detach_view() {
                    Ok(d) => d,
                    Err(_) => Vec::new(),
                };
                push_window(&mut view_part, &detach);
                self.window = Some(window);
            },
            None => {},
        }
        assert(view_part@ =~= old(self).view_part());
        let mut deactivate_part: Vec<HostCall> = Vec::new();
        match &self.instance {
            Some(instance) => {
                let open = matches!(
                    instance.state,
                    InstanceState::Initialized | InstanceState::Active | InstanceState::Inactive
                );
                if open {
                    deactivate_part.push(HostCall::Component(ComponentCall::SetActive(false)));
                }
            },
            None => {},
        }
        assert(deactivate_part@ =~= old(self).deactivate_part());
        let mut instrument_part: Vec<HostCall> = Vec::new();
        match self.instrument.take() {
            Some(instrument) => {
                let dispose = instrument.dispose();
                push_instrument(&mut instrument_part, &dispose);
            },
            None => {},
        }
        assert(instrument_part@ =~= old(self).instrument_part());
        let mut instance_part: Vec<HostCall> = Vec::new();
        match self.instance.take() {
            Some(mut instance) => {
                let teardown = instance.dispose();
                push_component(&mut instance_part, &teardown);
                let unload = self.registry.unref_plugin(instance.get_plugin());
                push_module(&mut instance_part, &unload);
            },
            None => {},
        }
        assert(instance_part@ =~= old(self).instance_part());
        calls.append(&mut view_part);
        calls.append(&mut deactivate_part);
        calls.append(&mut instrument_part);
        calls.append(&mut instance_part);
        Ok(calls)
    }

    /// Takes over the window that the window system created. The window is
    /// to be shown at once.
    pub fn create_window(&mut self, created: bool) -> (r: Result<HostCall, Error>)
        ensures
            final(self).registry == old(self).registry,
            final(self).audio == old(self).audio,
            final(self).instance == old(self).instance,
            final(self).instrument == old(self).instrument,
            final(self).stage == old(self).stage,
            match r {
                Ok(call) => created && call == HostCall::Window(WindowCall::Show) && (final(self).window matches Some(w) && w.hwnd && w.view is None),
                Err(e) => !created && final(self).window == old(self).window && e.is(
                    ErrorKind::CreationFailed,
                    "failed to create window",
                ),
            },
    {
        let window = match Window::new(created) {
            Ok(w) => w,
            Err(e) => {
                return Err(e);
            },
        };
        self.window = Some(window);
        Ok(HostCall::Window(WindowCall::Show))
    }

    /// Closes the window, if there is one. A window whose handle is not
    /// valid cannot be closed and is dropped as it is.
    pub fn close_window(&mut self) -> (r: Result<Vec<HostCall>, Error>)
        ensures
            final(self).window is None,
            final(self).registry == old(self).registry,
            final(self).audio == old(self).audio,
            final(self).instance == old(self).instance,
            final(self).instrument == old(self).instrument,
            final(self).stage == old(self).stage,
            match r {
                Ok(calls) => calls@ == match old(self).window {
                    Some(w) => window_calls(window_close_calls(w.view is Some)),
                    None => seq![],
                } && (old(self).window matches Some(w) ==> w.hwnd),
                Err(e) => (old(self).window matches Some(w) && !w.hwnd) && e.is(
                    ErrorKind::PreconditionFailed,
                    "invalid window handle",
                ),
            },
    {
        let mut calls: Vec<HostCall> = Vec::new();
        match self.window.take() {
            Some(mut window) => {
                match window.stop_timer() {
                    Ok(_) => {},
                    Err(e) => {
                        return Err(e);
                    },
                }
                let close = window.dispose();
                push_window(&mut calls, &close);
            },
            None => {
                assert(calls@ =~= seq![]);
            },
        }
        Ok(calls)
    }

    /// Takes over an audio device that was opened. A device that was held
    /// before is given up first: the calls for that are returned.
    pub fn create_audio(&mut self, audio: Audio) -> (r: Result<Vec<HostCall>, Error>)
        ensures
            final(self).audio == Some(audio),
            final(self).registry == old(self).registry,
            final(self).window == old(self).window,
            final(self).instance == old(self).instance,
            final(self).instrument == old(self).instrument,
            final(self).stage == old(self).stage,
            r matches Ok(calls) && calls@ == old(self).audio_part(),
    {
        let calls = match self.close_audio() {
            Ok(c) => c,
            Err(_) => Vec::new(),
        };
        self.audio = Some(audio);
        Ok(calls)
    }

    /// Gives the audio device up, if there is one.
    pub fn close_audio(&mut self) -> (r: Result<Vec<HostCall>, Error>)
        ensures
            final(self).audio is None,
            final(self).registry == old(self).registry,
            final(self).window == old(self).window,
            final(self).instance == old(self).instance,
            final(self).instrument == old(self).instrument,
            final(self).stage == old(self).stage,
            r matches Ok(calls) && calls@ == old(self).audio_part(),
    {
        let mut calls: Vec<HostCall> = Vec::new();
        match self.audio.take() {
            Some(mut audio) => {
                let close = audio.dispose();
                push_audio(&mut calls, &close);
            },
            None => {
                assert(calls@ =~= seq![]);
            },
        }
        Ok(calls)
    }

    pub fn get_audio_format(&self) -> (f: Option<&AudioFormatInfo>)
        ensures
            match f {
                Some(format) => self.audio matches Some(a) && *format == a.format,
                None => self.audio is None,
            },
    {
        match self.audio.as_ref() {
            Some(audio) => Some(audio.get_format()),
            None => None,
        }
    }

    /// Gives up everything that the application holds: the instrument, the
    /// window, the audio device, the host and the registry, in this order.
    /// Afterwards nothing is held, so that giving up again asks for nothing.
    pub fn dispose(&mut self) -> (calls: Vec<HostCall>)
        ensures
            final(self).instance is None,
            final(self).instrument is None,
            final(self).window is None,
            final(self).audio is None,
            final(self).stage == AppStage::Idle,
            final(self).registry.wf(),
            final(self).registry.cache().len() == 0,
            final(self).registry.loaded().len() == 0,
            final(self).registry.classes().len() == 0,
            calls@ == old(self).unload_script() + old(self).window_part() + old(self).audio_part(),
    {
        let mut calls = match self.unload_instrument() {
            Ok(c) => c,
            Err(_) => Vec::new(),
        };
        let mut window_part: Vec<HostCall> = Vec::new();
        match self.window.take() {
            Some(mut window) => {
                let close = window.dispose();
                push_window(&mut window_part, &close);
            },
            None => {},
        }
        assert(window_part@ =~= old(self).window_part());
        let mut audio_part = match self.close_audio() {
            Ok(c) => c,
            Err(_) => Vec::new(),
        };
        calls.append(&mut window_part);
        calls.append(&mut audio_part);
        self.host.dispose();
        self.registry.dispose();
        calls
    }
}

impl Application {
    /// Whether two applications hold the same session: the same registry,
    /// audio device, component, instrument and window.
    pub open spec fn same_session(&self, other: &Self) -> bool {
        &&& self.registry == other.registry
        &&& self.audio == other.audio
        &&& self.instance == other.instance
        &&& self.instrument == other.instrument
        &&& self.window == other.window
    }

    fn fail(&mut self, e: Error) -> (step: HostStep)
        ensures
            final(self).same_session(old(self)),
            final(self).stage == AppStage::Idle,
            final(self).pending_view == old(self).pending_view,
            final(self).request == old(self).request,
            final(self).class_id == old(self).class_id,
            final(self).target_active == old(self).target_active,
            final(self).negotiated == old(self).negotiated,
            step matches HostStep::Failed(f, calls) && f == e && calls@.len() == 0,
    {
        self.stage = AppStage::Idle;
        HostStep::Failed(e, Vec::new())
    }

    fn unexpected(&self) -> (step: HostStep)
        ensures
            step matches HostStep::Failed(e, calls) && e.is(
                ErrorKind::PreconditionFailed,
                "unexpected reply",
            ) && calls@.len() == 0,
    {
        HostStep::Failed(Error::new(ErrorKind::PreconditionFailed, "unexpected reply"), Vec::new())
    }

    fn go(&mut self, stage: AppStage, call: HostCall) -> (step: HostStep)
        ensures
            final(self).same_session(old(self)),
            final(self).stage == stage,
            final(self).pending_view == old(self).pending_view,
            final(self).request == old(self).request,
            final(self).class_id == old(self).class_id,
            final(self).target_active == old(self).target_active,
            final(self).negotiated == old(self).negotiated,
            step matches HostStep::Call(c) && c == call,
    {
        self.stage = stage;
        HostStep::Call(call)
    }

    /// Starts to load the instrument of a class.
    ///
    /// Loading needs an audio device, and no other instrument may be loaded
    /// or being loaded. The class must be known to the registry, which takes
    /// a reference to its plugin or asks for the plugin to be loaded first.
    pub fn load_instrument(&mut self, classid: &str) -> (step: HostStep)
        ensures
            final(self).audio == old(self).audio,
            final(self).instance == old(self).instance,
            final(self).instrument == old(self).instrument,
            final(self).window == old(self).window,
            final(self).registry.cache() == old(self).registry.cache(),
            final(self).registry.classes() == old(self).registry.classes(),
            old(self).stage != AppStage::Idle || old(self).audio is None || old(self).instance
                is Some ==> final(self).registry == old(self).registry && final(self).stage == old(self).stage && (step matches HostStep::Failed(e, calls) && e.kind
                == ErrorKind::PreconditionFailed && calls@.len() == 0),
            old(self).stage == AppStage::Idle && old(self).audio is Some && old(self).instance
                is None ==> match step {
                HostStep::Call(call) => has_key(old(self).registry.classes(), classid@) && ({
                    let entry = value_of(old(self).registry.classes(), classid@);
                    &&& final(self).class_id@ == classid@
                    &&& (final(self).request matches Some(request) && request.plugin_id@
                        == entry.plugin_info.id && request.cid@ == entry.class_info.cid && match call {
                        HostCall::LoadPlugin => final(self).stage == AppStage::LoadingPlugin
                            && request.load is Some && !has_key(
                            old(self).registry.loaded(),
                            entry.plugin_info.id,
                        ) && final(self).registry.loaded() == old(self).registry.loaded(),
                        HostCall::CreateInstance => final(self).stage
                            == AppStage::CreatingInstance && request.load is None && has_key(
                            old(self).registry.loaded(),
                            entry.plugin_info.id,
                        ) && final(self).registry.loaded() == crate::registry::referenced(
                            old(self).registry.loaded(),
                            entry.plugin_info.id,
                        ),
                        _ => false,
                    })
                }),
                HostStep::Failed(e, calls) => final(self).stage == AppStage::Idle && final(self).registry.loaded()
                    == old(self).registry.loaded() && calls@.len() == 0 && if !has_key(
                    old(self).registry.classes(),
                    classid@,
                ) {
                    e.is(ErrorKind::InvalidIdentifier, "failed to create class instance")
                } else {
                    let plugin_id = value_of(old(self).registry.classes(), classid@).plugin_info.id;
                    if has_key(old(self).registry.loaded(), plugin_id) {
                        crate::registry::ref_count(old(self).registry.loaded(), plugin_id)
                            == usize::MAX && e.kind == ErrorKind::PreconditionFailed
                    } else {
                        !has_key(old(self).registry.cache(), plugin_id) && e.kind
                            == ErrorKind::InvalidIdentifier
                    }
                },
                HostStep::Done => false,
            },
    {
        if !matches!(self.stage, AppStage::Idle) {
            return HostStep::Failed(
                Error::new(ErrorKind::PreconditionFailed, "another operation is in progress"),
                Vec::new(),
            );
        }
        if self.audio.is_none() {
            return HostStep::Failed(
                Error::new(ErrorKind::PreconditionFailed, "audio device not initialized"),
                Vec::new(),
            );
        }
        if self.instance.is_some() {
            return HostStep::Failed(
                Error::new(ErrorKind::PreconditionFailed, "an instrument is loaded already"),
                Vec::new(),
            );
        }
        let request = match self.registry.create_class_instance(classid) {
            Ok(request) => request,
            Err(e) => {
                return HostStep::Failed(e, Vec::new());
            },
        };
        let load = request.load.is_some();
        self.class_id = classid.to_owned();
        self.request = Some(request);
        if load {
            self.stage = AppStage::LoadingPlugin;
            HostStep::Call(HostCall::LoadPlugin)
        } else {
            self.stage = AppStage::CreatingInstance;
            HostStep::Call(HostCall::CreateInstance)
        }
    }

    /// Takes the outcome of [`HostCall::LoadPlugin`]. A plugin that was
    /// loaded joins the loaded set, held once, and the instance is asked
    /// for. A plugin that could not be loaded ends the loading.
    pub fn plugin_loaded(&mut self, result: Result<Plugin, Error>) -> (step: HostStep)
        ensures
            final(self).audio == old(self).audio,
            final(self).instance == old(self).instance,
            final(self).instrument == old(self).instrument,
            final(self).window == old(self).window,
            final(self).class_id == old(self).class_id,
            final(self).registry.cache() == old(self).registry.cache(),
            final(self).registry.classes() == old(self).registry.classes(),
            if old(self).stage == AppStage::LoadingPlugin && old(self).request is Some {
                match result {
                    Ok(plugin) => final(self).stage == AppStage::CreatingInstance && final(self).request == old(self).request && final(self).registry.loaded() == registered(
                        old(self).registry.loaded(),
                        old(self).request->0.plugin_id@,
                        plugin@,
                    ) && step matches HostStep::Call(HostCall::CreateInstance),
                    Err(e) => final(self).stage == AppStage::Idle && final(self).registry == old(self).registry && (step matches HostStep::Failed(f, calls) && f == e && calls@.len()
                        == 0),
                }
            } else {
                final(self).stage == old(self).stage && final(self).registry == old(self).registry
                    && (step matches HostStep::Failed(e, calls) && e.is(
                    ErrorKind::PreconditionFailed,
                    "unexpected reply",
                ))
            },
    {
        if !matches!(self.stage, AppStage::LoadingPlugin) || self.request.is_none() {
            return self.unexpected();
        }
        match result {
            Ok(plugin) => {
                match &self.request {
                    Some(request) => {
                        self.registry.add_plugin(request.plugin_id.as_str(), plugin);
                    },
                    None => {},
                }
                self.stage = AppStage::CreatingInstance;
                HostStep::Call(HostCall::CreateInstance)
            },
            Err(e) => self.fail(e),
        }
    }

    /// Takes the outcome of [`HostCall::CreateInstance`]: the status that
    /// the factory returned, whether it handed out an object, and whether
    /// the object offers the component capability. Where no component came
    /// of it, the reference to the plugin is given back, with the calls that
    /// unload the plugin if nothing else holds it.
    pub fn instance_created(&mut self, status: tresult, object_present: bool, component_present: bool) -> (step: HostStep)
        ensures
            final(self).audio == old(self).audio,
            final(self).instrument == old(self).instrument,
            final(self).window == old(self).window,
            final(self).registry.cache() == old(self).registry.cache(),
            final(self).registry.classes() == old(self).registry.classes(),
            if old(self).stage == AppStage::CreatingInstance && old(self).request is Some {
                if status == kResultOk && object_present && component_present {
                    final(self).stage == AppStage::GettingContext && final(self).registry.loaded()
                        == old(self).registry.loaded() && (final(self).instance matches Some(
                        instance,
                    ) && instance@ == (InstanceView {
                        class_id: old(self).class_id@,
                        plugin: old(self).request->0.plugin_id@,
                        state: InstanceState::Created,
                    })) && step matches HostStep::Call(HostCall::GetHostContext)
                } else {
                    final(self).stage == AppStage::Idle && final(self).instance == old(self).instance && final(self).registry.loaded() == unreferenced(
                        old(self).registry.loaded(),
                        old(self).request->0.plugin_id@,
                    ) && (step matches HostStep::Failed(e, calls) && calls@ == module_calls(
                        unload_calls(old(self).registry.loaded(), old(self).request->0.plugin_id@),
                    ) && e.kind == if status == kResultOk && object_present {
                        ErrorKind::InterfaceNotSupported
                    } else {
                        ErrorKind::CreationFailed
                    })
                }
            } else {
                final(self).stage == old(self).stage && final(self).registry == old(self).registry
                    && final(self).instance == old(self).instance && (
                step matches HostStep::Failed(e, calls) && e.is(
                    ErrorKind::PreconditionFailed,
                    "unexpected reply",
                ))
            },
    {
        if !matches!(self.stage, AppStage::CreatingInstance) {
            return self.unexpected();
        }
        let request = match self.request.take() {
            Some(request) => request,
            None => {
                return self.unexpected();
            },
        };
        match self.registry.finish_class_instance(
            &request,
            self.class_id.as_str(),
            status,
            object_present,
            component_present,
        ) {
            Ok(instance) => {
                self.instance = Some(instance);
                self.stage = AppStage::GettingContext;
                HostStep::Call(HostCall::GetHostContext)
            },
            Err((e, unload)) => {
                self.stage = AppStage::Idle;
                let mut calls: Vec<HostCall> = Vec::new();
                push_module(&mut calls, &unload);
                assert(calls@ =~= module_calls(unload@));
                HostStep::Failed(e, calls)
            },
        }
    }

    /// Takes the answer to [`HostCall::GetHostContext`]. With the host
    /// context the component is initialized.
    pub fn host_context(&mut self, status: tresult) -> (step: HostStep)
        ensures
            final(self).same_session(old(self)),
            if old(self).stage == AppStage::GettingContext {
                if status == kResultOk {
                    final(self).stage == AppStage::Initializing
                        && step matches HostStep::Call(
                        HostCall::Component(ComponentCall::Initialize),
                    )
                } else {
                    final(self).stage == AppStage::Idle && (step matches HostStep::Failed(e, calls)
                        && calls@.len() == 0 && e.is(
                        ErrorKind::InterfaceNotSupported,
                        "unable to get host context",
                    ))
                }
            } else {
                final(self).stage == old(self).stage && (step matches HostStep::Failed(e, calls)
                    && e.is(ErrorKind::PreconditionFailed, "unexpected reply"))
            },
    {
        if !matches!(self.stage, AppStage::GettingContext) {
            return self.unexpected();
        }
        match self.host.get_context(status) {
            Ok(()) => self.go(
                AppStage::Initializing,
                HostCall::Component(ComponentCall::Initialize),
            ),
            Err(e) => self.fail(e),
        }
    }

    /// Takes the answer to [`ComponentCall::Initialize`]. For a component
    /// that is initialized the instrument is built.
    pub fn component_initialized(&mut self, status: tresult) -> (step: HostStep)
        ensures
            final(self).registry == old(self).registry,
            final(self).audio == old(self).audio,
            final(self).instrument == old(self).instrument,
            final(self).window == old(self).window,
            if old(self).stage == AppStage::Initializing && old(self).instance is Some {
                let before = old(self).instance->0;
                &&& final(self).instance matches Some(instance) && instance.class_id
                    == before.class_id && instance.plugin == before.plugin && instance.state
                    == initialized(before.state, status)
                &&& if before.state == InstanceState::Created && status == kResultOk {
                    final(self).stage == AppStage::Building && step matches HostStep::Call(
                        HostCall::BuildInstrument,
                    )
                } else {
                    final(self).stage == AppStage::Idle && (step matches HostStep::Failed(e, calls)
                        && calls@.len() == 0 && e.kind == if before.state
                        != InstanceState::Created {
                        ErrorKind::PreconditionFailed
                    } else {
                        ErrorKind::InitializationFailed
                    })
                }
            } else {
                final(self).stage == old(self).stage && final(self).instance == old(self).instance
                    && (step matches HostStep::Failed(e, calls) && e.is(
                    ErrorKind::PreconditionFailed,
                    "unexpected reply",
                ))
            },
    {
        if !matches!(self.stage, AppStage::Initializing) {
            return self.unexpected();
        }
        let mut instance = match self.instance.take() {
            Some(instance) => instance,
            None => {
                return self.unexpected();
            },
        };
        let result = instance.initialize(status);
        self.instance = Some(instance);
        match result {
            Ok(()) => {
                self.stage = AppStage::Building;
                HostStep::Call(HostCall::BuildInstrument)
            },
            Err(e) => {
                self.stage = AppStage::Idle;
                HostStep::Failed(e, Vec::new())
            },
        }
    }

    /// Takes the outcome of [`HostCall::BuildInstrument`]. With the
    /// instrument the view is asked for, if there is a window to show it
    /// in; else the instrument is activated.
    pub fn instrument_built(&mut self, result: Result<Instrument, Error>) -> (step: HostStep)
        ensures
            final(self).registry == old(self).registry,
            final(self).audio == old(self).audio,
            final(self).instance == old(self).instance,
            final(self).window == old(self).window,
            if old(self).stage == AppStage::Building {
                match result {
                    Ok(instrument) => final(self).instrument == Some(instrument) && if old(self).window is Some {
                        final(self).stage == AppStage::CreatingView
                            && step matches HostStep::Call(
                            HostCall::Instrument(
                                InstrumentCall::Controller(ControllerCall::CreateView),
                            ),
                        )
                    } else {
                        final(self).stage == AppStage::Stopping && final(self).target_active && (
                        step matches HostStep::Call(c) && c == stop_processing())
                    },
                    Err(e) => final(self).stage == AppStage::Idle && final(self).instrument == old(self).instrument && (step matches HostStep::Failed(f, calls) && f == e
                        && calls@.len() == 0),
                }
            } else {
                final(self).stage == old(self).stage && final(self).instrument == old(self).instrument && (step matches HostStep::Failed(e, calls) && e.is(
                    ErrorKind::PreconditionFailed,
                    "unexpected reply",
                ))
            },
    {
        if !matches!(self.stage, AppStage::Building) {
            return self.unexpected();
        }
        match result {
            Ok(instrument) => {
                self.instrument = Some(instrument);
                if self.window.is_some() {
                    self.go(
                        AppStage::CreatingView,
                        HostCall::Instrument(InstrumentCall::Controller(ControllerCall::CreateView)),
                    )
                } else {
                    self.target_active = true;
                    self.stage = AppStage::Stopping;
                    HostStep::Call(
                        HostCall::Instrument(
                            InstrumentCall::Processor(ProcessorCall::SetProcessing(false)),
                        ),
                    )
                }
            },
            Err(e) => self.fail(e),
        }
    }

    /// Takes the answer to [`ControllerCall::CreateView`]: whether the
    /// controller created a view. The view is given its frame first.
    pub fn view_created(&mut self, view_present: bool) -> (step: HostStep)
        ensures
            final(self).same_session(old(self)),
            if old(self).stage == AppStage::CreatingView && old(self).instrument is Some {
                if view_present {
                    final(self).stage == AppStage::SettingFrame && (
                    final(self).pending_view matches Some(view) && !view.attached())
                        && step matches HostStep::Call(
                        HostCall::Window(WindowCall::View(ViewCall::SetFrame(true))),
                    )
                } else {
                    final(self).stage == AppStage::Idle && (step matches HostStep::Failed(e, calls)
                        && calls@.len() == 0 && e.is(
                        ErrorKind::CreationFailed,
                        "failed to create view",
                    ))
                }
            } else {
                final(self).stage == old(self).stage && (step matches HostStep::Failed(e, calls)
                    && e.is(ErrorKind::PreconditionFailed, "unexpected reply"))
            },
    {
        if !matches!(self.stage, AppStage::CreatingView) {
            return self.unexpected();
        }
        let created = match &self.instrument {
            Some(instrument) => instrument.create_view(view_present),
            None => {
                return self.unexpected();
            },
        };
        match created {
            Ok((view, call)) => {
                self.pending_view = Some(view);
                self.go(AppStage::SettingFrame, HostCall::Window(WindowCall::View(call)))
            },
            Err(e) => self.fail(e),
        }
    }

    /// Takes the answer to [`ViewCall::SetFrame`], which is not looked at.
    /// The view is attached to the window next.
    pub fn frame_set(&mut self) -> (step: HostStep)
        ensures
            final(self).same_session(old(self)),
            final(self).pending_view == old(self).pending_view,
            if old(self).stage == AppStage::SettingFrame {
                final(self).stage == AppStage::AttachingView && step matches HostStep::Call(
                    HostCall::Window(WindowCall::View(ViewCall::Attached)),
                )
            } else {
                final(self).stage == old(self).stage && (step matches HostStep::Failed(e, calls)
                    && e.is(ErrorKind::PreconditionFailed, "unexpected reply"))
            },
    {
        if !matches!(self.stage, AppStage::SettingFrame) {
            return self.unexpected();
        }
        self.go(AppStage::AttachingView, HostCall::Window(WindowCall::View(ViewCall::Attached)))
    }

    /// The calls that give up a view that could not be shown.
    pub open spec fn drop_view_calls() -> Seq<HostCall> {
        seq![
            HostCall::Window(WindowCall::View(ViewCall::SetFrame(false))),
            HostCall::Window(WindowCall::View(ViewCall::Release)),
        ]
    }

    /// Takes the answer to [`ViewCall::Attached`]. A view that is attached
    /// is shown in the window and the instrument is activated. A view that
    /// could not be attached, or for which the window is not free, is given
    /// up.
    pub fn view_attached(&mut self, status: tresult) -> (step: HostStep)
        ensures
            final(self).registry == old(self).registry,
            final(self).audio == old(self).audio,
            final(self).instance == old(self).instance,
            final(self).instrument == old(self).instrument,
            final(self).pending_view is None || final(self).pending_view == old(self).pending_view,
            if old(self).stage == AppStage::AttachingView && old(self).pending_view is Some {
                if status == kResultOk && (old(self).window matches Some(w) && w.hwnd && w.view
                    is None) {
                    final(self).stage == AppStage::Stopping && final(self).target_active
                        && final(self).shows_view() && final(self).pending_view is None && (
                    step matches HostStep::Call(c) && c == stop_processing())
                } else {
                    final(self).stage == AppStage::Idle && final(self).window == old(self).window
                        && final(self).pending_view is None && (step matches HostStep::Failed(
                        e,
                        calls,
                    ) && calls@ == Self::drop_view_calls() && e.kind == if status != kResultOk {
                        ErrorKind::CallFailed
                    } else {
                        ErrorKind::PreconditionFailed
                    })
                }
            } else {
                final(self).stage == old(self).stage && final(self).window == old(self).window && (
                step matches HostStep::Failed(e, calls) && e.is(
                    ErrorKind::PreconditionFailed,
                    "unexpected reply",
                ))
            },
    {
        if !matches!(self.stage, AppStage::AttachingView) {
            return self.unexpected();
        }
        let mut view = match self.pending_view.take() {
            Some(view) => view,
            None => {
                return self.unexpected();
            },
        };
        let attached = view.attach(status);
        let shown = match attached {
            Ok(()) => match self.window.take() {
                Some(mut window) => {
                    let r = window.attach_view(view);
                    self.window = Some(window);
                    r
                },
                None => Err(Error::new(ErrorKind::PreconditionFailed, "invalid window handle")),
            },
            Err(e) => Err(e),
        };
        match shown {
            Ok(()) => {
                self.target_active = true;
                self.stage = AppStage::Stopping;
                HostStep::Call(
                    HostCall::Instrument(
                        InstrumentCall::Processor(ProcessorCall::SetProcessing(false)),
                    ),
                )
            },
            Err(e) => {
                self.stage = AppStage::Idle;
                let mut calls: Vec<HostCall> = Vec::new();
                calls.push(HostCall::Window(WindowCall::View(ViewCall::SetFrame(false))));
                calls.push(HostCall::Window(WindowCall::View(ViewCall::Release)));
                HostStep::Failed(e, calls)
            },
        }
    }

    /// Starts to switch the instrument on or off.
    ///
    /// Processing is stopped first, if there is an instrument. To switch on,
    /// the processing setup is then negotiated, the component is activated,
    /// and processing is started; to switch off, the component is
    /// deactivated.
    pub fn set_active(&mut self, active: bool) -> (step: HostStep)
        ensures
            final(self).same_session(old(self)),
            if old(self).stage != AppStage::Idle {
                final(self).stage == old(self).stage && (step matches HostStep::Failed(e, calls)
                    && e.kind == ErrorKind::PreconditionFailed)
            } else if old(self).instrument is Some {
                final(self).stage == AppStage::Stopping && final(self).target_active == active && (
                step matches HostStep::Call(c) && c == stop_processing())
            } else if old(self).instance is Some {
                final(self).stage == AppStage::Switching && final(self).target_active == active
                    && (step matches HostStep::Call(c) && c == HostCall::Component(
                    ComponentCall::SetActive(active),
                ))
            } else {
                final(self).stage == AppStage::Idle && step is Done
            },
    {
        if !matches!(self.stage, AppStage::Idle) {
            return HostStep::Failed(
                Error::new(ErrorKind::PreconditionFailed, "another operation is in progress"),
                Vec::new(),
            );
        }
        self.target_active = active;
        if self.instrument.is_some() {
            self.go(
                AppStage::Stopping,
                HostCall::Instrument(InstrumentCall::Processor(ProcessorCall::SetProcessing(false))),
            )
        } else if self.instance.is_some() {
            self.go(AppStage::Switching, HostCall::Component(ComponentCall::SetActive(active)))
        } else {
            HostStep::Done
        }
    }

    /// Takes the answer to the call that stopped processing, which is not
    /// looked at. To switch on, the setup is proposed next; to switch off,
    /// the component is deactivated.
    pub fn processing_stopped(&mut self) -> (step: HostStep)
        ensures
            final(self).same_session(old(self)),
            final(self).target_active == old(self).target_active,
            final(self).negotiated == (old(self).negotiated && old(self).stage
                != AppStage::Stopping),
            if old(self).stage != AppStage::Stopping {
                final(self).stage == old(self).stage && (step matches HostStep::Failed(e, calls)
                    && e.is(ErrorKind::PreconditionFailed, "unexpected reply"))
            } else if old(self).target_active && old(self).instrument is Some {
                final(self).stage == AppStage::Negotiating && (step matches HostStep::Call(c) && c
                    == HostCall::Instrument(
                    InstrumentCall::Processor(
                        ProcessorCall::SetupProcessing(
                            process_setup_for(
                                old(self).instrument->0.context.audio_processor.context.audio_format,
                            ),
                        ),
                    ),
                ))
            } else if old(self).instance is Some {
                final(self).stage == AppStage::Switching && (step matches HostStep::Call(c) && c
                    == HostCall::Component(ComponentCall::SetActive(old(self).target_active)))
            } else {
                final(self).stage == AppStage::Idle && step is Done
            },
    {
        if !matches!(self.stage, AppStage::Stopping) {
            return self.unexpected();
        }
        self.negotiated = false;
        let setup: Option<ProcessSetup> = match &self.instrument {
            Some(instrument) => if self.target_active {
                Some(instrument.context.audio_processor.process_setup())
            } else {
                None
            },
            None => None,
        };
        match setup {
            Some(setup) => self.go(
                AppStage::Negotiating,
                HostCall::Instrument(
                    InstrumentCall::Processor(ProcessorCall::SetupProcessing(setup)),
                ),
            ),
            None => {
                if self.instance.is_some() {
                    let active = self.target_active;
                    self.go(
                        AppStage::Switching,
                        HostCall::Component(ComponentCall::SetActive(active)),
                    )
                } else {
                    self.stage = AppStage::Idle;
                    HostStep::Done
                }
            },
        }
    }

    /// Takes the plugin's answer to the proposed setup. A plugin that
    /// refuses the setup is not activated, and processing stays off.
    pub fn setup_answered(&mut self, status: tresult) -> (step: HostStep)
        ensures
            final(self).same_session(old(self)),
            final(self).target_active == old(self).target_active,
            final(self).negotiated == if old(self).stage == AppStage::Negotiating {
                status == kResultOk
            } else {
                old(self).negotiated
            },
            if old(self).stage != AppStage::Negotiating {
                final(self).stage == old(self).stage && (step matches HostStep::Failed(e, calls)
                    && e.is(ErrorKind::PreconditionFailed, "unexpected reply"))
            } else if status != kResultOk {
                final(self).stage == AppStage::Idle && (step matches HostStep::Failed(e, calls)
                    && calls@.len() == 0 && e.is(
                    ErrorKind::NegotiationFailed,
                    "failed to setup processing",
                ))
            } else if old(self).instance is Some {
                final(self).stage == AppStage::Switching && (step matches HostStep::Call(c) && c
                    == HostCall::Component(ComponentCall::SetActive(old(self).target_active)))
            } else {
                final(self).stage == AppStage::Idle && (step matches HostStep::Failed(e, calls)
                    && e.kind == ErrorKind::PreconditionFailed)
            },
    {
        if !matches!(self.stage, AppStage::Negotiating) {
            return self.unexpected();
        }
        if status != kResultOk {
            self.negotiated = false;
            return self.fail(
                Error::new(ErrorKind::NegotiationFailed, "failed to setup processing"),
            );
        }
        self.negotiated = true;
        if self.instance.is_some() {
            let active = self.target_active;
            self.go(AppStage::Switching, HostCall::Component(ComponentCall::SetActive(active)))
        } else {
            self.fail(Error::new(ErrorKind::PreconditionFailed, "no component to activate"))
        }
    }

    /// Takes the answer to [`ComponentCall::SetActive`]. Processing is
    /// started only for a component that is active: where activation
    /// failed, processing stays off. What a deactivation answered is not
    /// looked at.
    pub fn switched(&mut self, status: tresult) -> (step: HostStep)
        ensures
            final(self).registry == old(self).registry,
            final(self).audio == old(self).audio,
            final(self).instrument == old(self).instrument,
            final(self).window == old(self).window,
            final(self).target_active == old(self).target_active,
            final(self).negotiated == old(self).negotiated,
            if old(self).stage == AppStage::Switching && old(self).instance is Some {
                let before = old(self).instance->0;
                let active = old(self).target_active;
                &&& final(self).instance matches Some(instance) && instance.class_id
                    == before.class_id && instance.plugin == before.plugin && instance.state
                    == switched(before.state, active, status)
                &&& if active && can_switch(before.state) && status == kResultOk && old(self).instrument is Some {
                    final(self).stage == AppStage::QueryingLatency && (step matches HostStep::Call(
                        c,
                    ) && c == HostCall::Instrument(
                        InstrumentCall::Processor(ProcessorCall::GetLatencySamples),
                    ))
                } else if active && !(can_switch(before.state) && status == kResultOk) {
                    final(self).stage == AppStage::Idle && (step matches HostStep::Failed(e, calls)
                        && calls@.len() == 0 && e.kind == if can_switch(before.state) {
                        ErrorKind::CallFailed
                    } else {
                        ErrorKind::PreconditionFailed
                    })
                } else {
                    final(self).stage == AppStage::Idle && step is Done
                }
            } else {
                final(self).stage == old(self).stage && final(self).instance == old(self).instance
                    && (step matches HostStep::Failed(e, calls) && e.is(
                    ErrorKind::PreconditionFailed,
                    "unexpected reply",
                ))
            },
    {
        if !matches!(self.stage, AppStage::Switching) {
            return self.unexpected();
        }
        let mut instance = match self.instance.take() {
            Some(instance) => instance,
            None => {
                return self.unexpected();
            },
        };
        let result = instance.set_active(self.target_active, status);
        self.instance = Some(instance);
        if !self.target_active {
            self.stage = AppStage::Idle;
            return HostStep::Done;
        }
        match result {
            Ok(()) => {
                if self.instrument.is_some() {
                    self.stage = AppStage::QueryingLatency;
                    HostStep::Call(
                        HostCall::Instrument(
                            InstrumentCall::Processor(ProcessorCall::GetLatencySamples),
                        ),
                    )
                } else {
                    self.stage = AppStage::Idle;
                    HostStep::Done
                }
            },
            Err(e) => {
                self.stage = AppStage::Idle;
                HostStep::Failed(e, Vec::new())
            },
        }
    }

    /// Whether processing may be switched on: an instrument is loaded whose
    /// setup the plugin has accepted, and its component is active.
    pub open spec fn may_process(&self) -> bool {
        &&& self.instrument is Some
        &&& self.negotiated
        &&& self.instance matches Some(instance) && instance.state == InstanceState::Active
    }

    /// Takes the latency that the plugin reported and keeps it. Processing
    /// is started next, and only here: the call that switches processing on
    /// is asked for only after the plugin has accepted the setup and while
    /// the component is active.
    pub fn latency_reported(&mut self, samples: u32) -> (step: HostStep)
        ensures
            final(self).registry == old(self).registry,
            final(self).audio == old(self).audio,
            final(self).instance == old(self).instance,
            final(self).window == old(self).window,
            final(self).negotiated == old(self).negotiated,
            if old(self).stage == AppStage::QueryingLatency && old(self).may_process() {
                let before = old(self).instrument->0;
                &&& final(self).stage == AppStage::Starting
                &&& final(self).instrument matches Some(instrument)
                    && instrument.context.audio_processor.context.latency_samples == samples
                    && instrument.context.audio_processor.context.audio_format
                    == before.context.audio_processor.context.audio_format
                    && instrument.context.process_data == before.context.process_data
                    && instrument.controller == before.controller && instrument.input_event_list
                    == before.input_event_list
                &&& step matches HostStep::Call(c) && c == HostCall::Instrument(
                    InstrumentCall::Processor(ProcessorCall::SetProcessing(true)),
                )
            } else {
                final(self).stage == old(self).stage && final(self).instrument == old(self).instrument && (step matches HostStep::Failed(e, calls) && e.is(
                    ErrorKind::PreconditionFailed,
                    "unexpected reply",
                ))
            },
    {
        if !matches!(self.stage, AppStage::QueryingLatency) || !self.negotiated {
            return self.unexpected();
        }
        let active = match &self.instance {
            Some(instance) => matches!(instance.state, InstanceState::Active),
            None => false,
        };
        if !active {
            return self.unexpected();
        }
        let mut instrument = match self.instrument.take() {
            Some(instrument) => instrument,
            None => {
                return self.unexpected();
            },
        };
        instrument.context.audio_processor.set_latency_samples(samples);
        self.instrument = Some(instrument);
        self.stage = AppStage::Starting;
        HostStep::Call(
            HostCall::Instrument(InstrumentCall::Processor(ProcessorCall::SetProcessing(true))),
        )
    }

    /// Takes the answer to the call that started processing, which is not
    /// looked at. The instrument is running.
    pub fn processing_started(&mut self) -> (step: HostStep)
        ensures
            final(self).same_session(old(self)),
            if old(self).stage == AppStage::Starting {
                final(self).stage == AppStage::Idle && step is Done
            } else {
                final(self).stage == old(self).stage && (step matches HostStep::Failed(e, calls)
                    && e.is(ErrorKind::PreconditionFailed, "unexpected reply"))
            },
    {
        if !matches!(self.stage, AppStage::Starting) {
            return self.unexpected();
        }
        self.stage = AppStage::Idle;
        HostStep::Done
    }
}

/// The processing record as it is handed to the plugin for one period: the
/// sample count is that of the period, there is one output bus of two
/// channels and an input bus without channels, and everything else is as
/// it was.
pub open spec fn process_data_for_period(data: ProcessData, info: AudioCallbackInfo) -> ProcessData {
    ProcessData {
        num_samples: clipped_i32(info.buffer_size),
        outputs: Some(AudioBusBuffers { num_channels: 2, silence_flags: 0 }),
        inputs: Some(AudioBusBuffers { num_channels: 0, silence_flags: 0 }),
        ..data
    }
}

impl Application {
    /// The calls with which a run ends once the audio stream was started:
    /// the message loop of the window, if there is one, and then the calls
    /// that stop the stream.
    pub open spec fn run_script(&self) -> Seq<HostCall> {
        (if self.window is Some {
            seq![HostCall::Window(WindowCall::EventLoop)]
        } else {
            seq![]
        }) + (match self.audio {
            Some(a) => audio_calls(stop_calls(a.driver, true)),
            None => seq![],
        })
    }

    /// Starts a run: the audio stream is started, if there is an audio
    /// device. The calls to make are returned in their order; the outcome of
    /// the last one is reported with [`Application::running`]. A device
    /// without a driver cannot run.
    pub fn run(&mut self) -> (r: Result<Vec<HostCall>, Error>)
        ensures
            final(self).registry == old(self).registry,
            final(self).instance == old(self).instance,
            final(self).instrument == old(self).instrument,
            final(self).window == old(self).window,
            final(self).stage == old(self).stage,
            match old(self).audio {
                None => final(self).audio is None && (r matches Ok(calls) && calls@.len() == 0),
                Some(before) => final(self).audio matches Some(after) && after.driver
                    == before.driver && after.format == before.format && match r {
                    Ok(calls) => before.driver && after.context.running() && after.asio_callback_id
                        && calls@ == seq![
                        HostCall::Audio(AudioCall::AddCallback),
                        HostCall::Audio(AudioCall::Start),
                    ],
                    Err(e) => !before.driver && after.asio_callback_id == before.asio_callback_id
                        && e.is(ErrorKind::PreconditionFailed, "driver not initialized"),
                },
            },
    {
        let mut calls: Vec<HostCall> = Vec::new();
        match self.audio.take() {
            Some(mut audio) => {
                let started = audio.start();
                self.audio = Some(audio);
                match started {
                    Ok(start) => {
                        push_audio(&mut calls, &start);
                        assert(calls@ =~= seq![
                            HostCall::Audio(AudioCall::AddCallback),
                            HostCall::Audio(AudioCall::Start),
                        ]);
                    },
                    Err(e) => {
                        return Err(e);
                    },
                }
            },
            None => {},
        }
        Ok(calls)
    }

    /// Goes on with a run once the audio stream was asked to start. If the
    /// driver did not start, the run ends with an error. Else the message
    /// loop runs, if there is a window, and the stream is stopped after it.
    pub fn running(&mut self, started: bool) -> (r: Result<Vec<HostCall>, Error>)
        ensures
            final(self).registry == old(self).registry,
            final(self).instance == old(self).instance,
            final(self).instrument == old(self).instrument,
            final(self).window == old(self).window,
            final(self).stage == old(self).stage,
            match r {
                Ok(calls) => (old(self).audio is None || started) && calls@ == old(self).run_script()
                    && match old(self).audio {
                    Some(before) => final(self).audio matches Some(after) && !after.asio_callback_id
                        && after.driver == before.driver && after.format == before.format,
                    None => final(self).audio is None,
                },
                Err(e) => old(self).audio is Some && !started && final(self).audio == old(self).audio && e.is(ErrorKind::CallFailed, "failed to start driver"),
            },
    {
        let mut calls: Vec<HostCall> = Vec::new();
        if self.audio.is_some() && !started {
            return Err(Error::new(ErrorKind::CallFailed, "failed to start driver"));
        }
        if self.window.is_some() {
            calls.push(HostCall::Window(WindowCall::EventLoop));
        }
        let ghost head = calls@;
        match self.audio.take() {
            Some(mut audio) => {
                audio.asio_callback_id = true;
                let stop = match audio.stop() {
                    Ok(s) => s,
                    Err(_) => Vec::new(),
                };
                push_audio(&mut calls, &stop);
                self.audio = Some(audio);
            },
            None => {
                assert(calls@ =~= head + Seq::<HostCall>::empty());
            },
        }
        Ok(calls)
    }

    /// Prepares the processing record for one period and says what to ask
    /// of the plugin: to process the block.
    pub fn process_data(process_data: &mut ProcessData, callback_info: &AudioCallbackInfo) -> (call: ProcessorCall)
        ensures
            *final(process_data) == process_data_for_period(*old(process_data), *callback_info),
            call == ProcessorCall::Process,
    {
        process_data.num_samples = clip_i32(callback_info.buffer_size);
        process_data.outputs = Some(AudioBusBuffers { num_channels: 2, silence_flags: 0 });
        process_data.inputs = Some(AudioBusBuffers { num_channels: 0, silence_flags: 0 });
        ProcessorCall::Process
    }

    /// Whether the audio callback processes a period.
    ///
    /// `info` is what the audio device hands on for the period, nothing if
    /// the stream is not running or its state could not be had at once.
    /// `lock_acquired` says whether the instrument's shared state could be
    /// locked at once. The callback never waits: unless both are there, the
    /// period stays silent and nothing is asked of the plugin.
    pub fn on_buffer_ready(info: Option<AudioCallbackInfo>, lock_acquired: bool) -> (r: Option<AudioCallbackInfo>)
        ensures
            r == if lock_acquired {
                info
            } else {
                None
            },
    {
        if lock_acquired {
            info
        } else {
            None
        }
    }
}

/// An application that holds no component, no instrument and shows no view
/// asks for nothing when its instrument is unloaded. This is the state that
/// every unloading leaves behind, so that unloading twice has no second
/// effect.
pub proof fn lemma_unload_twice(app: Application)
    requires
        app.instance is None,
        app.instrument is None,
        !app.shows_view(),
    ensures
        app.unload_script() == Seq::<HostCall>::empty(),
{
    assert(detach_calls(false) =~= Seq::<WindowCall>::empty());
    assert(window_calls(detach_calls(false)) =~= Seq::<HostCall>::empty());
    assert(app.unload_script() =~= Seq::<HostCall>::empty());
}

/// An application that holds nothing at all asks for nothing when it is
/// disposed. This is the state that every disposal leaves behind, so that
/// disposing twice has no second effect.
pub proof fn lemma_dispose_twice(app: Application)
    requires
        app.instance is None,
        app.instrument is None,
        app.window is None,
        app.audio is None,
    ensures
        app.unload_script() + app.window_part() + app.audio_part() == Seq::<HostCall>::empty(),
{
    lemma_unload_twice(app);
    assert(app.unload_script() + app.window_part() + app.audio_part() =~= Seq::<HostCall>::empty());
}

/// Unloading gives the reference to the plugin back exactly once, whatever
/// the plugin answers to the calls of the teardown: the script of the
/// teardown holds the calls that unload the plugin at its very end, and none
/// of the calls before them touches the plugin's library.
pub proof fn lemma_unload_releases_last(app: Application)
    requires
        app.instance is Some,
    ensures
        ({
            let unload = module_calls(unload_calls(app.registry.loaded(), app.instance->0.plugin@));
            let script = app.unload_script();
            &&& script.len() >= unload.len()
            &&& script.subrange(script.len() - unload.len(), script.len() as int) == unload
            &&& forall|i: int|
                0 <= i < script.len() - unload.len() ==> !(#[trigger] script[i] is Module)
        }),
{
    let instance = app.instance->0;
    let unload = module_calls(unload_calls(app.registry.loaded(), instance.plugin@));
    let head = app.stop_part() + app.view_part() + app.deactivate_part() + app.instrument_part()
        + component_calls(teardown_calls(instance.state));
    let script = app.unload_script();
    assert(script =~= head + unload);
    assert(script.subrange(script.len() - unload.len(), script.len() as int) =~= unload);
    assert forall|i: int| 0 <= i < script.len() - unload.len() implies !(#[trigger] script[i] is Module) by {
        assert(script[i] == head[i]);
        let a = app.stop_part();
        let b = app.view_part();
        let c = app.deactivate_part();
        let d = app.instrument_part();
        let e = component_calls(teardown_calls(instance.state));
        if i < a.len() {
            assert(head[i] == a[i]);
        } else if i < a.len() + b.len() {
            assert(head[i] == b[i - a.len()]);
        } else if i < a.len() + b.len() + c.len() {
            assert(head[i] == c[i - a.len() - b.len()]);
        } else if i < a.len() + b.len() + c.len() + d.len() {
            assert(head[i] == d[i - a.len() - b.len() - c.len()]);
        } else {
            assert(head[i] == e[i - a.len() - b.len() - c.len() - d.len()]);
        }
    }
}

} // verus!
