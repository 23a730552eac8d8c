use keystone::application::{AppStage, Application, HostCall, HostStep};
use keystone::audio::{Audio, AudioCall, AudioCallbackInfo, AudioContext, AudioFormatInfo};
use keystone::audio_processor::ProcessorCall;
use keystone::base::{kResultFalse, kResultOk};
use keystone::edit_controller::ControllerCall;
use keystone::error::{Error, ErrorKind};
use keystone::guid::GUID;
use keystone::instance::{ComponentCall, InstanceState};
use keystone::instrument::{Instrument, InstrumentCall, InstrumentReply, BuildStep};
use keystone::plugin::{ClassInfo, ModuleCall, Plugin, PluginInfo};
use keystone::strmap::StrMap;
use keystone::view::ViewCall;
use keystone::window::WindowCall;

const SYNTH: &str = "3C2A31A836CE1F5088C9096932F9A0EA";
const PLUGIN: &str = "c_vst3_mega_vst3";

fn format() -> AudioFormatInfo {
    AudioFormatInfo { sample_rate: 48000.0f64.to_bits(), num_channels: 2, buffer_size: 256 }
}

fn audio() -> Audio {
    Audio { context: AudioContext::new(), driver: true, asio_callback_id: false, format: format() }
}

fn class() -> ClassInfo {
    ClassInfo {
        name: "Mega".to_string(),
        category: "Audio Module Class".to_string(),
        cardinality: 0x7FFFFFFF,
        cid: GUID::from_string(SYNTH),
    }
}

fn cache() -> StrMap<PluginInfo> {
    let mut cache = StrMap::new();
    cache.insert(
        PLUGIN.to_string(),
        PluginInfo {
            id: PLUGIN.to_string(),
            path: "C:/VST3/Mega.vst3".to_string(),
            classes: vec![class()],
            file_time: 100,
        },
    );
    cache
}

fn application() -> Application {
    let mut app = Application::new(cache()).unwrap();
    app.create_audio(audio()).unwrap();
    app
}

fn instrument(separate_controller: bool) -> Instrument {
    let mut builder = Instrument::new(&format(), true);
    builder.resume(InstrumentReply::Begin);
    builder.resume(InstrumentReply::Requirements(None));
    builder.resume(InstrumentReply::Capability(true));
    let mut step = builder.resume(InstrumentReply::Status(kResultOk));
    if separate_controller {
        builder.resume(InstrumentReply::Capability(false));
        builder.resume(InstrumentReply::Status(kResultOk));
        builder.resume(InstrumentReply::Created(kResultOk, true));
        builder.resume(InstrumentReply::Capability(true));
        builder.resume(InstrumentReply::Status(kResultOk));
        step = builder.resume(InstrumentReply::Status(kResultOk));
    } else {
        let _ = step;
        step = builder.resume(InstrumentReply::Capability(true));
    }
    match step {
        BuildStep::Built(i) => i,
        _ => panic!("instrument was not built"),
    }
}

/// A stand-in for the plugin and its surroundings that records every call
/// and answers as configured.
struct Double {
    calls: Vec<HostCall>,
    status: i32,
    setup_status: i32,
    separate_controller: bool,
}

impl Double {
    fn new() -> Self {
        Double { calls: Vec::new(), status: kResultOk, setup_status: kResultOk, separate_controller: false }
    }

    fn drive(&mut self, app: &mut Application, first: HostStep) -> Result<(), Error> {
        let mut step = first;
        loop {
            let call = match step {
                HostStep::Call(call) => call,
                HostStep::Done => return Ok(()),
                HostStep::Failed(e, cleanup) => {
                    self.calls.extend(cleanup);
                    return Err(e);
                }
            };
            self.calls.push(call);
            step = match call {
                HostCall::LoadPlugin => {
                    app.plugin_loaded(Ok(Plugin::new("C:/VST3/Mega.vst3", 100, true, vec![class()])))
                }
                HostCall::CreateInstance => app.instance_created(self.status, true, true),
                HostCall::GetHostContext => app.host_context(kResultOk),
                HostCall::Component(ComponentCall::Initialize) => app.component_initialized(self.status),
                HostCall::BuildInstrument => app.instrument_built(Ok(instrument(self.separate_controller))),
                HostCall::Instrument(InstrumentCall::Controller(ControllerCall::CreateView)) => {
                    app.view_created(true)
                }
                HostCall::Window(WindowCall::View(ViewCall::SetFrame(true))) => app.frame_set(),
                HostCall::Window(WindowCall::View(ViewCall::Attached)) => app.view_attached(self.status),
                HostCall::Instrument(InstrumentCall::Processor(ProcessorCall::SetProcessing(false))) => {
                    app.processing_stopped()
                }
                HostCall::Instrument(InstrumentCall::Processor(ProcessorCall::SetupProcessing(_))) => {
                    app.setup_answered(self.setup_status)
                }
                HostCall::Component(ComponentCall::SetActive(_)) => app.switched(self.status),
                HostCall::Instrument(InstrumentCall::Processor(ProcessorCall::GetLatencySamples)) => {
                    app.latency_reported(64)
                }
                HostCall::Instrument(InstrumentCall::Processor(ProcessorCall::SetProcessing(true))) => {
                    app.processing_started()
                }
                other => panic!("unexpected call {:?}", other),
            };
        }
    }

    fn position(&self, wanted: impl Fn(&HostCall) -> bool) -> usize {
        self.calls.iter().position(|c| wanted(c)).expect("call was made")
    }
}

fn loaded(app: &mut Application, double: &mut Double) {
    let first = app.load_instrument(SYNTH);
    double.drive(app, first).expect("instrument loads");
}

#[test]
fn load_without_audio_device_fails_precondition() {
    let mut app = Application::new(cache()).unwrap();
    match app.load_instrument(SYNTH) {
        HostStep::Failed(e, calls) => {
            assert_eq!(e.kind(), ErrorKind::PreconditionFailed);
            assert_eq!(e.message(), "audio device not initialized");
            assert!(calls.is_empty());
        }
        _ => panic!("expected a failure"),
    }
    assert!(!app.registry.is_loaded(PLUGIN));
    assert_eq!(app.stage, AppStage::Idle);
}

#[test]
fn load_of_unknown_class_is_invalid_identifier() {
    let mut app = application();
    match app.load_instrument("00000000000000000000000000000000") {
        HostStep::Failed(e, _) => assert_eq!(e.kind(), ErrorKind::InvalidIdentifier),
        _ => panic!("expected a failure"),
    }
    assert_eq!(app.registry.ref_counter(PLUGIN), 0);
    assert!(app.instance.is_none());
}

#[test]
fn load_runs_all_steps_in_order() {
    let mut app = application();
    let mut double = Double::new();
    loaded(&mut app, &mut double);
    assert_eq!(
        double.calls,
        vec![
            HostCall::LoadPlugin,
            HostCall::CreateInstance,
            HostCall::GetHostContext,
            HostCall::Component(ComponentCall::Initialize),
            HostCall::BuildInstrument,
            HostCall::Instrument(InstrumentCall::Processor(ProcessorCall::SetProcessing(false))),
            HostCall::Instrument(InstrumentCall::Processor(ProcessorCall::SetupProcessing(
                app.instrument.as_ref().unwrap().get_context().audio_processor.process_setup()
            ))),
            HostCall::Component(ComponentCall::SetActive(true)),
            HostCall::Instrument(InstrumentCall::Processor(ProcessorCall::GetLatencySamples)),
            HostCall::Instrument(InstrumentCall::Processor(ProcessorCall::SetProcessing(true))),
        ]
    );
    assert_eq!(app.stage, AppStage::Idle);
    assert_eq!(app.instance.as_ref().unwrap().state(), InstanceState::Active);
    assert_eq!(app.instrument.as_ref().unwrap().get_context().audio_processor.context.latency_samples, 64);
    assert_eq!(app.registry.ref_counter(PLUGIN), 1);
}

#[test]
fn activation_negotiates_setup_before_processing_is_enabled() {
    let mut app = application();
    let mut double = Double::new();
    loaded(&mut app, &mut double);
    let setup = double.position(|c| {
        matches!(c, HostCall::Instrument(InstrumentCall::Processor(ProcessorCall::SetupProcessing(_))))
    });
    let active = double.position(|c| matches!(c, HostCall::Component(ComponentCall::SetActive(true))));
    let enable = double.position(|c| {
        matches!(c, HostCall::Instrument(InstrumentCall::Processor(ProcessorCall::SetProcessing(true))))
    });
    assert!(setup < active);
    assert!(active < enable);

    let mut again = Double::new();
    let first = app.set_active(false);
    again.drive(&mut app, first).unwrap();
    assert_eq!(
        again.calls,
        vec![
            HostCall::Instrument(InstrumentCall::Processor(ProcessorCall::SetProcessing(false))),
            HostCall::Component(ComponentCall::SetActive(false)),
        ]
    );
    assert_eq!(app.instance.as_ref().unwrap().state(), InstanceState::Inactive);
    let mut third = Double::new();
    let first = app.set_active(true);
    third.drive(&mut app, first).unwrap();
    let setup = third.position(|c| {
        matches!(c, HostCall::Instrument(InstrumentCall::Processor(ProcessorCall::SetupProcessing(_))))
    });
    let enable = third.position(|c| {
        matches!(c, HostCall::Instrument(InstrumentCall::Processor(ProcessorCall::SetProcessing(true))))
    });
    assert!(setup < enable);
    assert_eq!(app.instance.as_ref().unwrap().state(), InstanceState::Active);
}

#[test]
fn refused_setup_aborts_loading_before_activation() {
    let mut app = application();
    let mut double = Double::new();
    double.setup_status = kResultFalse;
    let first = app.load_instrument(SYNTH);
    let e = double.drive(&mut app, first).unwrap_err();
    assert_eq!(e.kind(), ErrorKind::NegotiationFailed);
    assert!(!double.calls.iter().any(|c| matches!(c, HostCall::Component(ComponentCall::SetActive(_)))));
    assert!(!double.calls.iter().any(|c| {
        matches!(c, HostCall::Instrument(InstrumentCall::Processor(ProcessorCall::SetProcessing(true))))
    }));
    assert_eq!(app.instance.as_ref().unwrap().state(), InstanceState::Initialized);
    let teardown = app.unload_instrument().unwrap();
    assert_eq!(
        teardown,
        vec![
            HostCall::Instrument(InstrumentCall::Processor(ProcessorCall::SetProcessing(false))),
            HostCall::Component(ComponentCall::SetActive(false)),
            HostCall::Instrument(InstrumentCall::Processor(ProcessorCall::SetProcessing(false))),
            HostCall::Component(ComponentCall::SetActive(false)),
            HostCall::Component(ComponentCall::Terminate),
            HostCall::Component(ComponentCall::Release),
            HostCall::Module(ModuleCall::ReleaseFactory),
            HostCall::Module(ModuleCall::CallExit),
            HostCall::Module(ModuleCall::CloseLibrary),
        ]
    );
    assert!(!app.registry.is_loaded(PLUGIN));
}

#[test]
fn failed_creation_rolls_back_the_plugin_reference() {
    let mut app = application();
    let mut double = Double::new();
    double.status = kResultFalse;
    let first = app.load_instrument(SYNTH);
    let e = double.drive(&mut app, first).unwrap_err();
    assert_eq!(e.kind(), ErrorKind::CreationFailed);
    assert_eq!(
        double.calls,
        vec![
            HostCall::LoadPlugin,
            HostCall::CreateInstance,
            HostCall::Module(ModuleCall::ReleaseFactory),
            HostCall::Module(ModuleCall::CallExit),
            HostCall::Module(ModuleCall::CloseLibrary),
        ]
    );
    assert!(app.instance.is_none());
    assert!(!app.registry.is_loaded(PLUGIN));
    assert!(app.unload_instrument().unwrap().is_empty());
}

#[test]
fn plugin_that_cannot_be_loaded_ends_loading() {
    let mut app = application();
    assert!(matches!(app.load_instrument(SYNTH), HostStep::Call(HostCall::LoadPlugin)));
    match app.plugin_loaded(Err(Error::new(ErrorKind::LoadError, "no library"))) {
        HostStep::Failed(e, calls) => {
            assert_eq!(e.kind(), ErrorKind::LoadError);
            assert!(calls.is_empty());
        }
        _ => panic!("expected a failure"),
    }
    assert_eq!(app.stage, AppStage::Idle);
    assert!(!app.registry.is_loaded(PLUGIN));
}

#[test]
fn teardown_order_follows_the_disposal_sequence() {
    let mut app = application();
    app.create_window(true).unwrap();
    let mut double = Double::new();
    double.separate_controller = true;
    loaded(&mut app, &mut double);
    assert!(double.calls.contains(&HostCall::Window(WindowCall::View(ViewCall::Attached))));
    let teardown = app.unload_instrument().unwrap();
    assert_eq!(
        teardown,
        vec![
            HostCall::Instrument(InstrumentCall::Processor(ProcessorCall::SetProcessing(false))),
            HostCall::Window(WindowCall::View(ViewCall::Removed)),
            HostCall::Window(WindowCall::View(ViewCall::SetFrame(false))),
            HostCall::Window(WindowCall::View(ViewCall::Release)),
            HostCall::Component(ComponentCall::SetActive(false)),
            HostCall::Instrument(InstrumentCall::Controller(ControllerCall::Terminate)),
            HostCall::Instrument(InstrumentCall::Processor(ProcessorCall::SetProcessing(false))),
            HostCall::Component(ComponentCall::SetActive(false)),
            HostCall::Component(ComponentCall::Terminate),
            HostCall::Component(ComponentCall::Release),
            HostCall::Module(ModuleCall::ReleaseFactory),
            HostCall::Module(ModuleCall::CallExit),
            HostCall::Module(ModuleCall::CloseLibrary),
        ]
    );
}

#[test]
fn teardown_completes_when_every_call_fails() {
    let mut app = application();
    app.create_window(true).unwrap();
    let mut double = Double::new();
    loaded(&mut app, &mut double);
    assert_eq!(app.registry.ref_counter(PLUGIN), 1);

    let teardown = app.unload_instrument().unwrap();
    let mut answered = 0;
    for _call in &teardown {
        let _status = kResultFalse;
        answered += 1;
    }
    assert_eq!(answered, teardown.len());
    let releases = teardown.iter().filter(|c| **c == HostCall::Module(ModuleCall::CloseLibrary)).count();
    assert_eq!(releases, 1);
    assert_eq!(*teardown.last().unwrap(), HostCall::Module(ModuleCall::CloseLibrary));
    assert_eq!(app.registry.ref_counter(PLUGIN), 0);
    assert!(!app.registry.is_loaded(PLUGIN));
    assert!(app.instance.is_none());
    assert!(app.instrument.is_none());
}

#[test]
fn unload_twice_has_no_second_effect() {
    let mut app = application();
    let mut double = Double::new();
    loaded(&mut app, &mut double);
    assert!(!app.unload_instrument().unwrap().is_empty());
    assert!(app.unload_instrument().unwrap().is_empty());
    assert_eq!(app.registry.ref_counter(PLUGIN), 0);
    assert!(app.unload_instrument().unwrap().is_empty());
}

#[test]
fn unload_keeps_plugin_that_another_instance_holds() {
    let mut app = application();
    let mut double = Double::new();
    loaded(&mut app, &mut double);
    let request = app.registry.create_class_instance(SYNTH).unwrap();
    assert!(request.load.is_none());
    let other = app.registry.finish_class_instance(&request, SYNTH, 0, true, true).ok().unwrap();
    assert_eq!(app.registry.ref_counter(PLUGIN), 2);
    let teardown = app.unload_instrument().unwrap();
    assert!(!teardown.iter().any(|c| matches!(c, HostCall::Module(_))));
    assert_eq!(app.registry.ref_counter(PLUGIN), 1);
    assert!(!app.registry.unref_class_instance(other).unwrap().is_empty());
}

#[test]
fn dispose_gives_everything_up_and_only_once() {
    let mut app = application();
    app.create_window(true).unwrap();
    let mut double = Double::new();
    loaded(&mut app, &mut double);
    let calls = app.dispose();
    let close_window = calls.iter().position(|c| *c == HostCall::Window(WindowCall::Close)).unwrap();
    let close_library = calls.iter().position(|c| *c == HostCall::Module(ModuleCall::CloseLibrary)).unwrap();
    let destroy = calls.iter().position(|c| *c == HostCall::Audio(AudioCall::Destroy)).unwrap();
    assert!(close_library < close_window);
    assert!(close_window < destroy);
    assert_eq!(*calls.last().unwrap(), HostCall::Audio(AudioCall::Destroy));
    assert!(app.audio.is_none() && app.window.is_none() && app.instance.is_none());
    assert!(app.dispose().is_empty());
}

#[test]
fn second_instrument_is_refused_while_one_is_loaded() {
    let mut app = application();
    let mut double = Double::new();
    loaded(&mut app, &mut double);
    match app.load_instrument(SYNTH) {
        HostStep::Failed(e, _) => assert_eq!(e.kind(), ErrorKind::PreconditionFailed),
        _ => panic!("expected a failure"),
    }
    assert_eq!(app.registry.ref_counter(PLUGIN), 1);
}

#[test]
fn replies_out_of_turn_are_refused_and_change_nothing() {
    let mut app = application();
    for step in [
        app.instance_created(kResultOk, true, true),
        app.host_context(kResultOk),
        app.component_initialized(kResultOk),
        app.view_created(true),
        app.frame_set(),
        app.view_attached(kResultOk),
        app.processing_stopped(),
        app.setup_answered(kResultOk),
        app.switched(kResultOk),
        app.latency_reported(1),
        app.processing_started(),
    ] {
        match step {
            HostStep::Failed(e, _) => {
                assert_eq!(e.kind(), ErrorKind::PreconditionFailed);
                assert_eq!(e.message(), "unexpected reply");
            }
            _ => panic!("expected a failure"),
        }
    }
    assert_eq!(app.stage, AppStage::Idle);
    assert!(app.instance.is_none());
}

#[test]
fn failed_activation_leaves_processing_off() {
    let mut app = application();
    let mut double = Double::new();
    loaded(&mut app, &mut double);
    let mut off = Double::new();
    let first = app.set_active(false);
    off.drive(&mut app, first).unwrap();
    let mut failing = Double::new();
    failing.status = kResultFalse;
    let first = app.set_active(true);
    let e = failing.drive(&mut app, first).unwrap_err();
    assert_eq!(e.kind(), ErrorKind::CallFailed);
    assert!(!failing.calls.iter().any(|c| {
        matches!(c, HostCall::Instrument(InstrumentCall::Processor(ProcessorCall::SetProcessing(true))))
    }));
    assert_eq!(app.instance.as_ref().unwrap().state(), InstanceState::Inactive);
}

#[test]
fn view_that_cannot_be_attached_is_given_up() {
    let mut app = application();
    app.create_window(true).unwrap();
    let first = app.load_instrument(SYNTH);
    let mut step = first;
    let mut double = Double::new();
    loop {
        let call = match step {
            HostStep::Call(c) => c,
            HostStep::Done => panic!("load should fail"),
            HostStep::Failed(e, cleanup) => {
                assert_eq!(e.kind(), ErrorKind::CallFailed);
                assert_eq!(e.message(), "failed to attach view to window");
                assert_eq!(
                    cleanup,
                    vec![
                        HostCall::Window(WindowCall::View(ViewCall::SetFrame(false))),
                        HostCall::Window(WindowCall::View(ViewCall::Release)),
                    ]
                );
                break;
            }
        };
        step = if call == HostCall::Window(WindowCall::View(ViewCall::Attached)) {
            app.view_attached(kResultFalse)
        } else {
            let mut one = Double::new();
            std::mem::swap(&mut one, &mut double);
            match call {
                HostCall::LoadPlugin => app.plugin_loaded(Ok(Plugin::new("C:/VST3/Mega.vst3", 100, false, vec![class()]))),
                HostCall::CreateInstance => app.instance_created(kResultOk, true, true),
                HostCall::GetHostContext => app.host_context(kResultOk),
                HostCall::Component(ComponentCall::Initialize) => app.component_initialized(kResultOk),
                HostCall::BuildInstrument => app.instrument_built(Ok(instrument(false))),
                HostCall::Instrument(InstrumentCall::Controller(ControllerCall::CreateView)) => app.view_created(true),
                HostCall::Window(WindowCall::View(ViewCall::SetFrame(true))) => app.frame_set(),
                other => panic!("unexpected call {:?}", other),
            }
        };
    }
    assert!(app.window.as_ref().unwrap().view.is_none());
    assert!(app.instrument.is_some());
    let teardown = app.unload_instrument().unwrap();
    assert_eq!(*teardown.last().unwrap(), HostCall::Module(ModuleCall::CloseLibrary));
}

#[test]
fn run_starts_stream_then_loops_then_stops() {
    let mut app = application();
    app.create_window(true).unwrap();
    assert_eq!(
        app.run().unwrap(),
        vec![HostCall::Audio(AudioCall::AddCallback), HostCall::Audio(AudioCall::Start)]
    );
    assert!(app.audio.as_ref().unwrap().context.is_running());
    assert_eq!(
        app.running(true).unwrap(),
        vec![
            HostCall::Window(WindowCall::EventLoop),
            HostCall::Audio(AudioCall::RemoveCallback),
            HostCall::Audio(AudioCall::Stop),
        ]
    );
    let e = app.running(false).unwrap_err();
    assert_eq!(e.message(), "failed to start driver");
    let mut bare = Application::new(cache()).unwrap();
    assert!(bare.run().unwrap().is_empty());
    assert!(bare.running(false).unwrap().is_empty());
}

#[test]
fn window_and_audio_are_closed_on_request() {
    let mut app = application();
    assert_eq!(app.create_window(false).unwrap_err().kind(), ErrorKind::CreationFailed);
    assert_eq!(app.create_window(true).unwrap(), HostCall::Window(WindowCall::Show));
    assert_eq!(
        app.close_window().unwrap(),
        vec![
            HostCall::Window(WindowCall::StopTimer),
            HostCall::Window(WindowCall::DisposePainter),
            HostCall::Window(WindowCall::Close),
        ]
    );
    assert!(app.close_window().unwrap().is_empty());
    assert_eq!(*app.get_audio_format().unwrap(), format());
    assert_eq!(
        app.close_audio().unwrap(),
        vec![
            HostCall::Audio(AudioCall::Stop),
            HostCall::Audio(AudioCall::DisposeBuffers),
            HostCall::Audio(AudioCall::Destroy),
        ]
    );
    assert!(app.get_audio_format().is_none());
    assert!(app.close_audio().unwrap().is_empty());
}

#[test]
fn audio_callback_never_waits_for_the_lock() {
    let mut device = audio();
    device.start().unwrap();
    let info = Audio::on_buffer_ready(Some(&device.context), 1, 256);
    assert_eq!(info, Some(AudioCallbackInfo { buffer_index: 1, buffer_size: 256 }));
    assert_eq!(Audio::on_buffer_ready(None, 1, 256), None);
    assert_eq!(Application::on_buffer_ready(info, false), None);
    assert_eq!(Application::on_buffer_ready(None, true), None);
    assert_eq!(Application::on_buffer_ready(info, true), info);
    let idle = audio();
    assert_eq!(Audio::on_buffer_ready(Some(&idle.context), 0, 256), None);
}

#[test]
fn process_data_is_set_up_for_the_period() {
    let i = instrument(false);
    let mut data = *i.get_context().process_data;
    let call = Application::process_data(&mut data, &AudioCallbackInfo { buffer_index: 0, buffer_size: 128 });
    assert_eq!(call, ProcessorCall::Process);
    assert_eq!(data.num_samples, 128);
    assert_eq!(data.outputs.unwrap().num_channels, 2);
    assert_eq!(data.inputs.unwrap().num_channels, 0);
    assert_eq!(data.num_outputs, 1);
    assert_eq!(data.num_inputs, 0);
}

#[test]
fn processing_is_enabled_only_after_accepted_setup_on_active_component() {
    let mut app = application();
    let mut double = Double::new();
    loaded(&mut app, &mut double);
    assert!(app.negotiated);

    app.stage = AppStage::QueryingLatency;
    app.negotiated = false;
    assert!(matches!(app.latency_reported(10), HostStep::Failed(_, _)));
    assert_eq!(app.stage, AppStage::QueryingLatency);

    app.negotiated = true;
    app.instance.as_mut().unwrap().set_active(false, kResultOk).unwrap();
    assert!(matches!(app.latency_reported(10), HostStep::Failed(_, _)));

    app.instance.as_mut().unwrap().set_active(true, kResultOk).unwrap();
    assert!(matches!(
        app.latency_reported(10),
        HostStep::Call(HostCall::Instrument(InstrumentCall::Processor(ProcessorCall::SetProcessing(true))))
    ));
    assert_eq!(app.instrument.as_ref().unwrap().get_context().audio_processor.context.latency_samples, 10);

    let _ = app.processing_started();
    let mut off = Double::new();
    let first = app.set_active(false);
    off.drive(&mut app, first).unwrap();
    assert!(!app.negotiated);
    app.unload_instrument().unwrap();
    assert!(!app.negotiated);
}
