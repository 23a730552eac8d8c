use keystone::audio::AudioFormatInfo;
use keystone::audio_processor::{AudioProcessor, ProcessorCall};
use keystone::base::{kResultFalse, kResultOk};
use keystone::edit_controller::ControllerCall;
use keystone::error::ErrorKind;
use keystone::events::{EventList, EventTypes, MAX_EVENT_COUNT};
use keystone::instrument::{
    BuildStage, BuildStep, Instrument, InstrumentBuilder, InstrumentCall, InstrumentReply,
    ProcessContextFlags,
};

fn format() -> AudioFormatInfo {
    AudioFormatInfo { sample_rate: 44100.0f64.to_bits(), num_channels: 2, buffer_size: 512 }
}

fn call(step: BuildStep) -> InstrumentCall {
    match step {
        BuildStep::Call(c) => c,
        BuildStep::Built(_) => panic!("built too early"),
        BuildStep::Failed(e) => panic!("failed: {}", e.message()),
    }
}

fn failure(step: BuildStep) -> (ErrorKind, String) {
    match step {
        BuildStep::Failed(e) => (e.kind(), e.message().clone()),
        _ => panic!("expected a failure"),
    }
}

fn built(step: BuildStep) -> Instrument {
    match step {
        BuildStep::Built(i) => i,
        _ => panic!("expected the instrument"),
    }
}

fn up_to_controller(builder: &mut InstrumentBuilder) {
    assert_eq!(call(builder.resume(InstrumentReply::Begin)), InstrumentCall::QueryContextRequirements);
    assert_eq!(
        call(builder.resume(InstrumentReply::Requirements(Some(0x402)))),
        InstrumentCall::QueryAudioProcessor
    );
    assert_eq!(
        call(builder.resume(InstrumentReply::Capability(true))),
        InstrumentCall::Processor(ProcessorCall::SetProcessing(false))
    );
    assert_eq!(
        call(builder.resume(InstrumentReply::Status(kResultFalse))),
        InstrumentCall::QueryEditController
    );
}

fn simple_instrument() -> Instrument {
    let mut builder = Instrument::new(&format(), true);
    up_to_controller(&mut builder);
    built(builder.resume(InstrumentReply::Capability(true)))
}

#[test]
fn builder_uses_component_as_controller_when_it_can() {
    let mut builder = Instrument::new(&format(), true);
    up_to_controller(&mut builder);
    let instrument = built(builder.resume(InstrumentReply::Capability(true)));
    assert_eq!(builder.stage, BuildStage::Finished);
    assert!(!instrument.controller.is_instance);
    assert_eq!(instrument.process_context_requirements, 0x402);
    let data = &instrument.get_context().process_data;
    assert_eq!(data.process_mode, 0);
    assert_eq!(data.symbolic_sample_size, 0);
    assert_eq!(data.num_samples, 512);
    assert_eq!(data.num_inputs, 0);
    assert_eq!(data.num_outputs, 1);
    assert!(data.inputs.is_none());
    assert_eq!(data.outputs.unwrap().num_channels, 2);
    assert!(data.input_events && data.input_param_changes && data.context);
    assert!(!data.output_events && !data.output_param_changes);
    let processor = &instrument.get_context().audio_processor;
    assert_eq!(*processor.get_format(), format());
    assert_eq!(processor.context.latency_samples, 0);
    let context = processor.get_process_context();
    assert_eq!(context.state, ProcessContextFlags::kPlaying.bits());
    assert_eq!(f64::from_bits(context.tempo), 120.0);
    assert_eq!(f64::from_bits(context.sample_rate), 44100.0);
    assert_eq!(context.samples_to_next_clock, 512);
    assert_eq!(instrument.input_event_list.get_event_count(), 0);
}

#[test]
fn builder_tolerates_missing_context_requirements() {
    let mut builder = Instrument::new(&format(), true);
    builder.resume(InstrumentReply::Begin);
    builder.resume(InstrumentReply::Requirements(None));
    builder.resume(InstrumentReply::Capability(true));
    builder.resume(InstrumentReply::Status(kResultOk));
    let instrument = built(builder.resume(InstrumentReply::Capability(true)));
    assert_eq!(instrument.process_context_requirements, 0);
}

#[test]
fn builder_fails_without_audio_processor() {
    let mut builder = Instrument::new(&format(), true);
    builder.resume(InstrumentReply::Begin);
    builder.resume(InstrumentReply::Requirements(None));
    let (kind, message) = failure(builder.resume(InstrumentReply::Capability(false)));
    assert_eq!(kind, ErrorKind::InterfaceNotSupported);
    assert_eq!(message, "failed to query audio processor interface");
}

#[test]
fn builder_creates_and_initializes_separate_controller() {
    let mut builder = Instrument::new(&format(), true);
    up_to_controller(&mut builder);
    assert_eq!(
        call(builder.resume(InstrumentReply::Capability(false))),
        InstrumentCall::GetControllerClassId
    );
    assert_eq!(call(builder.resume(InstrumentReply::Status(kResultOk))), InstrumentCall::CreateController);
    assert_eq!(
        call(builder.resume(InstrumentReply::Created(kResultOk, true))),
        InstrumentCall::CastEditController
    );
    assert_eq!(call(builder.resume(InstrumentReply::Capability(true))), InstrumentCall::GetHostContext);
    assert_eq!(
        call(builder.resume(InstrumentReply::Status(kResultOk))),
        InstrumentCall::Controller(ControllerCall::Initialize)
    );
    let instrument = built(builder.resume(InstrumentReply::Status(kResultOk)));
    assert!(instrument.controller.is_instance);
    assert_eq!(
        instrument.dispose(),
        vec![
            InstrumentCall::Controller(ControllerCall::Terminate),
            InstrumentCall::Processor(ProcessorCall::SetProcessing(false)),
        ]
    );
}

#[test]
fn builder_reports_each_controller_failure() {
    let mut b = Instrument::new(&format(), true);
    up_to_controller(&mut b);
    b.resume(InstrumentReply::Capability(false));
    assert_eq!(
        failure(b.resume(InstrumentReply::Status(kResultFalse))),
        (ErrorKind::CallFailed, "failed to get controller class id".to_string())
    );

    let mut b = Instrument::new(&format(), false);
    up_to_controller(&mut b);
    b.resume(InstrumentReply::Capability(false));
    assert_eq!(
        failure(b.resume(InstrumentReply::Status(kResultOk))),
        (ErrorKind::PreconditionFailed, "plugin not loaded".to_string())
    );

    let mut b = Instrument::new(&format(), true);
    up_to_controller(&mut b);
    b.resume(InstrumentReply::Capability(false));
    b.resume(InstrumentReply::Status(kResultOk));
    assert_eq!(
        failure(b.resume(InstrumentReply::Created(kResultOk, false))),
        (ErrorKind::CreationFailed, "failed to create instance".to_string())
    );

    let mut b = Instrument::new(&format(), true);
    up_to_controller(&mut b);
    b.resume(InstrumentReply::Capability(false));
    b.resume(InstrumentReply::Status(kResultOk));
    b.resume(InstrumentReply::Created(kResultOk, true));
    assert_eq!(
        failure(b.resume(InstrumentReply::Capability(false))),
        (ErrorKind::InterfaceNotSupported, "failed to get controller interface".to_string())
    );

    let mut b = Instrument::new(&format(), true);
    up_to_controller(&mut b);
    b.resume(InstrumentReply::Capability(false));
    b.resume(InstrumentReply::Status(kResultOk));
    b.resume(InstrumentReply::Created(kResultOk, true));
    b.resume(InstrumentReply::Capability(true));
    assert_eq!(
        failure(b.resume(InstrumentReply::Status(kResultFalse))),
        (ErrorKind::InterfaceNotSupported, "unable to get host context".to_string())
    );

    let mut b = Instrument::new(&format(), true);
    up_to_controller(&mut b);
    b.resume(InstrumentReply::Capability(false));
    b.resume(InstrumentReply::Status(kResultOk));
    b.resume(InstrumentReply::Created(kResultOk, true));
    b.resume(InstrumentReply::Capability(true));
    b.resume(InstrumentReply::Status(kResultOk));
    assert_eq!(
        failure(b.resume(InstrumentReply::Status(kResultFalse))),
        (
            ErrorKind::InitializationFailed,
            "failed to initialize edit controller component".to_string()
        )
    );
}

#[test]
fn builder_rejects_reply_out_of_turn() {
    let mut b = Instrument::new(&format(), true);
    assert_eq!(failure(b.resume(InstrumentReply::Status(kResultOk))).0, ErrorKind::PreconditionFailed);
    assert_eq!(failure(b.resume(InstrumentReply::Begin)).0, ErrorKind::PreconditionFailed);
}

#[test]
fn event_queue_holds_at_most_256_events() {
    let mut instrument = simple_instrument();
    let event = EventList::new_event(EventList::new_note_off_event(60), EventTypes::kNoteOffEvent);
    for _ in 0..MAX_EVENT_COUNT {
        instrument.push_event(event).unwrap();
    }
    assert_eq!(instrument.input_event_list.get_event_count(), 256);
    let e = instrument.push_event(event).unwrap_err();
    assert_eq!(e.kind(), ErrorKind::QueueFull);
    assert_eq!(e.message(), "event list overflow");
    assert_eq!(instrument.input_event_list.get_event_count(), 256);
    instrument.clear_events().unwrap();
    assert_eq!(instrument.input_event_list.get_event_count(), 0);
    instrument.push_event(event).unwrap();
    assert_eq!(instrument.input_event_list.get_event_count(), 1);
}

#[test]
fn instrument_switches_processing_with_latency_query_first() {
    let mut instrument = simple_instrument();
    assert_eq!(
        instrument.set_processing(true).unwrap(),
        vec![ProcessorCall::GetLatencySamples, ProcessorCall::SetProcessing(true)]
    );
    assert_eq!(instrument.set_processing(false).unwrap(), vec![ProcessorCall::SetProcessing(false)]);
    assert_eq!(
        instrument.dispose(),
        vec![InstrumentCall::Processor(ProcessorCall::SetProcessing(false))]
    );
}

#[test]
fn instrument_view_needs_controller_to_create_one() {
    let instrument = simple_instrument();
    assert_eq!(instrument.create_view(false).err().unwrap().kind(), ErrorKind::CreationFailed);
    assert!(instrument.create_view(true).is_ok());
}

#[test]
fn audio_processor_negotiation() {
    let mut processor = AudioProcessor::new(true, &format()).unwrap();
    assert_eq!(
        AudioProcessor::new(false, &format()).err().unwrap().kind(),
        ErrorKind::InterfaceNotSupported
    );
    let setup = processor.process_setup();
    assert_eq!(setup.process_mode, 0);
    assert_eq!(setup.symbolic_sample_size, 0);
    assert_eq!(setup.max_samples_per_block, 512);
    assert_eq!(f64::from_bits(setup.sample_rate), 44100.0);
    assert!(processor.setup_processing(kResultOk).is_ok());
    let e = processor.setup_processing(kResultFalse).unwrap_err();
    assert_eq!(e.kind(), ErrorKind::NegotiationFailed);
    assert_eq!(e.message(), "failed to setup processing");
    processor.set_latency_samples(77);
    assert_eq!(processor.context.latency_samples, 77);
    assert_eq!(processor.get_bus_input_arrangement(kResultOk, 3), 3);
    assert_eq!(processor.get_bus_input_arrangement(kResultFalse, 3), 0);
    assert_eq!(processor.get_bus_output_arrangement(kResultOk, 3), 3);
    assert_eq!(processor.get_bus_output_arrangement(2, 3), 0);
    assert!(processor.set_bus_input_arrangements(kResultOk));
    assert!(!processor.set_bus_output_arrangements(kResultFalse));
    assert!(processor.process(kResultOk));
    assert!(!processor.process(kResultFalse));
    assert_eq!(processor.dispose(), vec![ProcessorCall::SetProcessing(false)]);
    assert!(AudioProcessor::can_process_sample_size_32(kResultOk));
    assert!(!AudioProcessor::can_process_sample_size_64(kResultFalse));
    assert_eq!(AudioProcessor::get_latency_samples(9), 9);
    assert_eq!(AudioProcessor::get_tail_samples(u32::MAX), u32::MAX as usize);
}

#[test]
fn huge_buffer_size_is_clipped_in_setup() {
    let wide = AudioFormatInfo { sample_rate: 0, num_channels: 2, buffer_size: usize::MAX };
    let processor = AudioProcessor::new(true, &wide).unwrap();
    assert_eq!(processor.process_setup().max_samples_per_block, i32::MAX);
    assert_eq!(processor.get_process_context().samples_to_next_clock, i64::MAX);
}
