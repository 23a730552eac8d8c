//! The instrument: the audio processor and the edit controller of one
//! component, the queues that feed it, and the record that is handed to
//! every processing call.

use vstd::prelude::*;
use vstd::string::*;
use vstd::view::View as _;
use crate::audio::AudioFormatInfo;
use crate::audio_processor::{clip_i32, clipped_i32, process_context_for, processing_calls, AudioProcessor, ProcessorCall, DEFAULT_AUDIO_BUFFER_SIZE, PROCESS_MODE_REALTIME, SAMPLE_SIZE_32};
use crate::base::{kResultOk, tresult};
use crate::edit_controller::{terminate_calls, ControllerCall, EditController};
use crate::error::{Error, ErrorKind};
use crate::events::{Event, EventList, MAX_EVENT_COUNT};
use crate::parameters::ParameterChanges;
use crate::stream::ByteStream;
use crate::view::{View, ViewCall};

verus! {

/// The flags of the transport record.
#[allow(non_camel_case_types)]
#[derive(Clone, Copy, Debug, PartialEq, Eq, Structural)]
pub enum ProcessContextFlags {
    kPlaying,
    kCycleActive,
    kRecording,
    kSystemTimeValid,
    kProjectTimeMusicValid,
    kTempoValid,
    kBarPositionValid,
    kCycleValid,
    kTimeSigValid,
    kSmpteValid,
    kClockValid,
    kContTimeValid,
    kChordValid,
}

impl ProcessContextFlags {
    /// The bit that stands for the flag.
    pub open spec fn bits_spec(self) -> u32 {
        match self {
            ProcessContextFlags::kPlaying => 0x2,
            ProcessContextFlags::kCycleActive => 0x4,
            ProcessContextFlags::kRecording => 0x8,
            ProcessContextFlags::kSystemTimeValid => 0x100,
            ProcessContextFlags::kProjectTimeMusicValid => 0x200,
            ProcessContextFlags::kTempoValid => 0x400,
            ProcessContextFlags::kBarPositionValid => 0x800,
            ProcessContextFlags::kCycleValid => 0x1000,
            ProcessContextFlags::kTimeSigValid => 0x2000,
            ProcessContextFlags::kSmpteValid => 0x4000,
            ProcessContextFlags::kClockValid => 0x8000,
            ProcessContextFlags::kContTimeValid => 0x20000,
            ProcessContextFlags::kChordValid => 0x40000,
        }
    }

    #[verifier::when_used_as_spec(bits_spec)]
    pub fn bits(self) -> (b: u32)
        ensures
            b == self.bits_spec(),
    {
        match self {
            ProcessContextFlags::kPlaying => 0x2,
            ProcessContextFlags::kCycleActive => 0x4,
            ProcessContextFlags::kRecording => 0x8,
            ProcessContextFlags::kSystemTimeValid => 0x100,
            ProcessContextFlags::kProjectTimeMusicValid => 0x200,
            ProcessContextFlags::kTempoValid => 0x400,
            ProcessContextFlags::kBarPositionValid => 0x800,
            ProcessContextFlags::kCycleValid => 0x1000,
            ProcessContextFlags::kTimeSigValid => 0x2000,
            ProcessContextFlags::kSmpteValid => 0x4000,
            ProcessContextFlags::kClockValid => 0x8000,
            ProcessContextFlags::kContTimeValid => 0x20000,
            ProcessContextFlags::kChordValid => 0x40000,
        }
    }
}

/// The description of one audio bus in a processing call. The buffers
/// themselves belong to the driver.
#[derive(Clone, Copy, Debug, PartialEq, Eq, Structural)]
pub struct AudioBusBuffers {
    pub num_channels: i32,
    pub silence_flags: u64,
}

/// The record that is handed to every processing call, as far as the host
/// decides on it: the mode, the counts, the bus descriptions, and which of
/// the queues and records are handed over.
#[derive(Clone, Copy, Debug, PartialEq, Eq, Structural)]
pub struct ProcessData {
    pub process_mode: i32,
    pub symbolic_sample_size: i32,
    pub num_samples: i32,
    pub num_inputs: i32,
    pub num_outputs: i32,
    pub inputs: Option<AudioBusBuffers>,
    pub outputs: Option<AudioBusBuffers>,
    pub input_param_changes: bool,
    pub output_param_changes: bool,
    pub input_events: bool,
    pub output_events: bool,
    pub context: bool,
}

/// The processing record for a format: realtime processing of 32-bit
/// samples, one buffer at a time, no input bus and one output bus of two
/// channels, with the input queues and the transport record handed over and
/// no output queues.
pub open spec fn process_data_for(format: AudioFormatInfo) -> ProcessData {
    ProcessData {
        process_mode: PROCESS_MODE_REALTIME,
        symbolic_sample_size: SAMPLE_SIZE_32,
        num_samples: clipped_i32(format.buffer_size),
        num_inputs: 0,
        num_outputs: 1,
        inputs: None,
        outputs: Some(AudioBusBuffers { num_channels: 2, silence_flags: 0 }),
        input_param_changes: true,
        output_param_changes: false,
        input_events: true,
        output_events: false,
        context: true,
    }
}

/// The state that the audio callback shares with the control thread.
pub struct InstrumentContext {
    pub process_data: Box<ProcessData>,
    pub audio_processor: AudioProcessor,
}

/// The instrument.
pub struct Instrument {
    pub controller: EditController,
    pub input_param_changes: Box<ParameterChanges>,
    pub input_event_list: Box<EventList>,
    pub state_stream: Box<ByteStream>,
    pub context: InstrumentContext,
    pub process_context_requirements: u32,
}

/// One thing asked of the component while an instrument is built or given up.
#[derive(Clone, Copy, Debug, PartialEq, Eq, Structural)]
pub enum InstrumentCall {
    /// Ask which parts of the transport record the plugin needs.
    QueryContextRequirements,
    /// Ask for the audio-processing capability.
    QueryAudioProcessor,
    /// Ask the component for the edit-controller capability.
    QueryEditController,
    /// Ask the component for the class of its edit controller.
    GetControllerClassId,
    /// Ask the factory for an object of the controller's class.
    CreateController,
    /// Ask the created object for the edit-controller capability.
    CastEditController,
    /// Ask the host's callback object for its base interface.
    GetHostContext,
    /// A call on the audio processor.
    Processor(ProcessorCall),
    /// A call on the edit controller.
    Controller(ControllerCall),
}

/// What came of the call that a builder asked for last.
#[derive(Clone, Copy, Debug, PartialEq, Eq, Structural)]
pub enum InstrumentReply {
    /// Nothing was asked for yet.
    Begin,
    /// The flags that the plugin reported; nothing if it lacks the capability.
    Requirements(Option<u32>),
    /// Whether the capability that was asked for is there.
    Capability(bool),
    /// The status that the call returned.
    Status(tresult),
    /// The status of a creation, and whether an object was handed out.
    Created(tresult, bool),
}

/// How far a builder has come.
#[derive(Clone, Copy, Debug, PartialEq, Eq, Structural)]
pub enum BuildStage {
    Idle,
    Requirements,
    Processor,
    Disabling,
    Controller,
    ClassId,
    Creating,
    Casting,
    HostContext,
    Initializing,
    Finished,
}

/// What a builder wants next.
pub enum BuildStep {
    /// Make this call and come back with its outcome.
    Call(InstrumentCall),
    /// The instrument is built.
    Built(Instrument),
    /// The component cannot be used as an instrument.
    Failed(Error),
}

/// The calls that give an instrument up: the controller is terminated if
/// it is an object of its own, then processing is switched off.
pub open spec fn instrument_dispose_calls(is_instance: bool) -> Seq<InstrumentCall> {
    if is_instance {
        seq![
            InstrumentCall::Controller(ControllerCall::Terminate),
            InstrumentCall::Processor(ProcessorCall::SetProcessing(false)),
        ]
    } else {
        seq![InstrumentCall::Processor(ProcessorCall::SetProcessing(false))]
    }
}

impl Instrument {
    /// Whether the instrument is the one that a builder makes for the given
    /// format, transport requirements and kind of controller.
    pub open spec fn is_fresh(&self, format: AudioFormatInfo, requirements: u32, is_instance: bool) -> bool {
        &&& self.controller.is_instance == is_instance
        &&& self.process_context_requirements == requirements
        &&& self.input_event_list@ == Seq::<Event>::empty()
        &&& *self.context.process_data == process_data_for(format)
        &&& self.context.audio_processor.context.audio_format == format
        &&& self.context.audio_processor.context.samples_per_block == DEFAULT_AUDIO_BUFFER_SIZE
        &&& self.context.audio_processor.context.latency_samples == 0
        &&& *self.context.audio_processor.context.process_context == process_context_for(format)
    }

    /// Starts to build an instrument for a component: see
    /// [`InstrumentBuilder`].
    pub fn new(audio_format: &AudioFormatInfo, plugin_loaded: bool) -> (b: InstrumentBuilder)
        ensures
            b.stage == BuildStage::Idle,
            b.format == *audio_format,
            b.plugin_loaded == plugin_loaded,
            b.requirements == 0,
            !b.is_instance,
    {
        InstrumentBuilder {
            stage: BuildStage::Idle,
            format: *audio_format,
            plugin_loaded,
            requirements: 0,
            is_instance: false,
        }
    }

    /// Gives the instrument up and consumes it. The calls to make are
    /// returned in their order.
    pub fn dispose(self) -> (calls: Vec<InstrumentCall>)
        ensures
            calls@ == instrument_dispose_calls(self.controller.is_instance),
    {
        let mut this = self;
        let mut calls: Vec<InstrumentCall> = Vec::new();
        let ghost is_instance = this.controller.is_instance;
        let terminate = this.controller.dispose();
        if terminate.len() > 0 {
            calls.push(InstrumentCall::Controller(ControllerCall::Terminate));
        }
        let _ = this.context.audio_processor.dispose();
        calls.push(InstrumentCall::Processor(ProcessorCall::SetProcessing(false)));
        assert(calls@ =~= instrument_dispose_calls(is_instance));
        calls
    }

    /// Appends an input event. A full queue refuses it.
    pub fn push_event(&mut self, event: Event) -> (r: Result<(), Error>)
        ensures
            final(self).controller == old(self).controller,
            final(self).context == old(self).context,
            match r {
                Ok(()) => old(self).input_event_list@.len() < MAX_EVENT_COUNT && final(self).input_event_list@ == old(self).input_event_list@.push(event),
                Err(e) => old(self).input_event_list@.len() == MAX_EVENT_COUNT && final(self).input_event_list@ == old(self).input_event_list@ && e.is(
                    ErrorKind::QueueFull,
                    "event list overflow",
                ),
            },
    {
        self.input_event_list.push_event(event)
    }

    /// Removes all input events.
    pub fn clear_events(&mut self) -> (r: Result<(), Error>)
        ensures
            r is Ok,
            final(self).controller == old(self).controller,
            final(self).context == old(self).context,
            final(self).input_event_list@ == Seq::<Event>::empty(),
    {
        self.input_event_list.clear()
    }

    /// Wraps the view that the controller created, if it created one.
    pub fn create_view(&self, view_present: bool) -> (r: Result<(View, ViewCall), Error>)
        ensures
            match r {
                Ok((view, call)) => view_present && !view.attached() && call == ViewCall::SetFrame(
                    true,
                ),
                Err(e) => !view_present && e.is(ErrorKind::CreationFailed, "failed to create view"),
            },
    {
        self.controller.create_view(view_present)
    }

    pub fn get_context(&self) -> (c: &InstrumentContext)
        ensures
            *c == self.context,
    {
        &self.context
    }

    /// The processing record for an audio processor.
    pub fn create_process_data(audio_processor: &AudioProcessor) -> (r: Result<ProcessData, Error>)
        ensures
            r matches Ok(data) && data == process_data_for(audio_processor.context.audio_format),
    {
        let audio_format = audio_processor.get_format();
        Ok(
            ProcessData {
                process_mode: PROCESS_MODE_REALTIME,
                symbolic_sample_size: SAMPLE_SIZE_32,
                num_samples: clip_i32(audio_format.buffer_size),
                num_inputs: 0,
                num_outputs: 1,
                inputs: None,
                outputs: Some(AudioBusBuffers { num_channels: 2, silence_flags: 0 }),
                input_param_changes: true,
                output_param_changes: false,
                input_events: true,
                output_events: false,
                context: true,
            },
        )
    }

    /// Switches processing. The calls are to be made while the shared state
    /// is locked.
    pub fn set_processing(&mut self, enable: bool) -> (r: Result<Vec<ProcessorCall>, Error>)
        ensures
            final(self).controller == old(self).controller,
            final(self).context.process_data == old(self).context.process_data,
            final(self).context.audio_processor.context == old(self).context.audio_processor.context,
            final(self).input_event_list == old(self).input_event_list,
            r matches Ok(calls) && calls@ == processing_calls(enable),
    {
        Ok(self.context.audio_processor.set_processing(enable))
    }
}

/// Builds an instrument for a component, call by call.
///
/// The plugin is asked which parts of the transport record it needs, which
/// it may leave unanswered. It must offer the audio-processing capability,
/// and processing is switched off at once. The edit controller is the
/// component itself if it offers that capability; else an object of the
/// controller's class is created beside the component and initialized with
/// the host context.
pub struct InstrumentBuilder {
    pub stage: BuildStage,
    pub format: AudioFormatInfo,
    pub plugin_loaded: bool,
    pub requirements: u32,
    pub is_instance: bool,
}

impl InstrumentBuilder {
    /// Whether the reply answers the call that the stage is waiting for.
    pub open spec fn expects(stage: BuildStage, reply: InstrumentReply) -> bool {
        match (stage, reply) {
            (BuildStage::Idle, InstrumentReply::Begin) => true,
            (BuildStage::Requirements, InstrumentReply::Requirements(_)) => true,
            (BuildStage::Processor, InstrumentReply::Capability(_)) => true,
            (BuildStage::Disabling, InstrumentReply::Status(_)) => true,
            (BuildStage::Controller, InstrumentReply::Capability(_)) => true,
            (BuildStage::ClassId, InstrumentReply::Status(_)) => true,
            (BuildStage::Creating, InstrumentReply::Created(_, _)) => true,
            (BuildStage::Casting, InstrumentReply::Capability(_)) => true,
            (BuildStage::HostContext, InstrumentReply::Status(_)) => true,
            (BuildStage::Initializing, InstrumentReply::Status(_)) => true,
            _ => false,
        }
    }

    /// The step that follows a stage when the reply lets the build go on:
    /// the next stage and the call to make. Nothing where the stage is the
    /// last or the reply ends the build.
    pub open spec fn advance(self, reply: InstrumentReply) -> Option<(BuildStage, InstrumentCall)> {
        match (self.stage, reply) {
            (BuildStage::Idle, InstrumentReply::Begin) => Some(
                (BuildStage::Requirements, InstrumentCall::QueryContextRequirements),
            ),
            (BuildStage::Requirements, InstrumentReply::Requirements(_)) => Some(
                (BuildStage::Processor, InstrumentCall::QueryAudioProcessor),
            ),
            (BuildStage::Processor, InstrumentReply::Capability(true)) => Some(
                (
                    BuildStage::Disabling,
                    InstrumentCall::Processor(ProcessorCall::SetProcessing(false)),
                ),
            ),
            (BuildStage::Disabling, InstrumentReply::Status(_)) => Some(
                (BuildStage::Controller, InstrumentCall::QueryEditController),
            ),
            (BuildStage::Controller, InstrumentReply::Capability(false)) => Some(
                (BuildStage::ClassId, InstrumentCall::GetControllerClassId),
            ),
            (BuildStage::ClassId, InstrumentReply::Status(status)) => if status == kResultOk
                && self.plugin_loaded {
                Some((BuildStage::Creating, InstrumentCall::CreateController))
            } else {
                None
            },
            (BuildStage::Creating, InstrumentReply::Created(status, present)) => if status
                == kResultOk && present {
                Some((BuildStage::Casting, InstrumentCall::CastEditController))
            } else {
                None
            },
            (BuildStage::Casting, InstrumentReply::Capability(true)) => Some(
                (BuildStage::HostContext, InstrumentCall::GetHostContext),
            ),
            (BuildStage::HostContext, InstrumentReply::Status(status)) => if status == kResultOk {
                Some(
                    (
                        BuildStage::Initializing,
                        InstrumentCall::Controller(ControllerCall::Initialize),
                    ),
                )
            } else {
                None
            },
            _ => None,
        }
    }

    /// The failure with which a reply ends the build, if it does.
    pub open spec fn failure(self, reply: InstrumentReply) -> Option<(ErrorKind, Seq<char>)> {
        if !Self::expects(self.stage, reply) {
            Some((ErrorKind::PreconditionFailed, "unexpected reply while building instrument"@))
        } else {
            match (self.stage, reply) {
                (BuildStage::Processor, InstrumentReply::Capability(false)) => Some(
                    (
                        ErrorKind::InterfaceNotSupported,
                        "failed to query audio processor interface"@,
                    ),
                ),
                (BuildStage::ClassId, InstrumentReply::Status(status)) => if status != kResultOk {
                    Some((ErrorKind::CallFailed, "failed to get controller class id"@))
                } else if !self.plugin_loaded {
                    Some((ErrorKind::PreconditionFailed, "plugin not loaded"@))
                } else {
                    None
                },
                (BuildStage::Creating, InstrumentReply::Created(status, present)) => if status
                    != kResultOk || !present {
                    Some((ErrorKind::CreationFailed, "failed to create instance"@))
                } else {
                    None
                },
                (BuildStage::Casting, InstrumentReply::Capability(false)) => Some(
                    (ErrorKind::InterfaceNotSupported, "failed to get controller interface"@),
                ),
                (BuildStage::HostContext, InstrumentReply::Status(status)) => if status
                    != kResultOk {
                    Some((ErrorKind::InterfaceNotSupported, "unable to get host context"@))
                } else {
                    None
                },
                (BuildStage::Initializing, InstrumentReply::Status(status)) => if status
                    != kResultOk {
                    Some(
                        (
                            ErrorKind::InitializationFailed,
                            "failed to initialize edit controller component"@,
                        ),
                    )
                } else {
                    None
                },
                _ => None,
            }
        }
    }

    fn fail(&mut self, e: Error) -> (step: BuildStep)
        ensures
            final(self).stage == BuildStage::Finished,
            final(self).format == old(self).format,
            final(self).plugin_loaded == old(self).plugin_loaded,
            final(self).requirements == old(self).requirements,
            final(self).is_instance == old(self).is_instance,
            step matches BuildStep::Failed(f) && f == e,
    {
        self.stage = BuildStage::Finished;
        BuildStep::Failed(e)
    }

    fn go(&mut self, stage: BuildStage, call: InstrumentCall) -> (step: BuildStep)
        ensures
            final(self).stage == stage,
            final(self).format == old(self).format,
            final(self).plugin_loaded == old(self).plugin_loaded,
            final(self).requirements == old(self).requirements,
            final(self).is_instance == old(self).is_instance,
            step matches BuildStep::Call(c) && c == call,
    {
        self.stage = stage;
        BuildStep::Call(call)
    }

    fn build(&mut self) -> (step: BuildStep)
        ensures
            final(self).stage == BuildStage::Finished,
            final(self).format == old(self).format,
            final(self).plugin_loaded == old(self).plugin_loaded,
            final(self).requirements == old(self).requirements,
            final(self).is_instance == old(self).is_instance,
            step matches BuildStep::Built(instrument) && instrument.is_fresh(
                old(self).format,
                old(self).requirements,
                old(self).is_instance,
            ),
    {
        self.stage = BuildStage::Finished;
        let audio_processor = match AudioProcessor::new(true, &self.format) {
            Ok(p) => p,
            Err(e) => {
                return BuildStep::Failed(e);
            },
        };
        let process_data = match Instrument::create_process_data(&audio_processor) {
            Ok(d) => d,
            Err(e) => {
                return BuildStep::Failed(e);
            },
        };
        BuildStep::Built(
            Instrument {
                controller: EditController::new(self.is_instance),
                input_param_changes: ParameterChanges::new(),
                input_event_list: EventList::new(),
                state_stream: ByteStream::new(),
                context: InstrumentContext { process_data: Box::new(process_data), audio_processor },
                process_context_requirements: self.requirements,
            },
        )
    }

    /// Takes the outcome of the last call and says what to do next.
    ///
    /// The build goes on as [`InstrumentBuilder::advance`] says, and ends
    /// with the failure that [`InstrumentBuilder::failure`] names. It ends
    /// with the instrument when the component offers the edit-controller
    /// capability itself, or when a controller of its own was initialized.
    pub fn resume(&mut self, reply: InstrumentReply) -> (step: BuildStep)
        ensures
            final(self).format == old(self).format,
            final(self).plugin_loaded == old(self).plugin_loaded,
            final(self).requirements == match (old(self).stage, reply) {
                (BuildStage::Requirements, InstrumentReply::Requirements(Some(flags))) => flags,
                (BuildStage::Requirements, InstrumentReply::Requirements(None)) => 0,
                _ => old(self).requirements,
            },
            final(self).is_instance == (old(self).is_instance || (old(self).stage
                == BuildStage::Casting && reply == InstrumentReply::Capability(true))),
            match old(self).failure(reply) {
                Some((kind, message)) => final(self).stage == BuildStage::Finished && (
                step matches BuildStep::Failed(e) && e.kind == kind && e.message@ == message),
                None => match old(self).advance(reply) {
                    Some((stage, call)) => final(self).stage == stage && (
                    step matches BuildStep::Call(c) && c == call),
                    None => final(self).stage == BuildStage::Finished && (
                    step matches BuildStep::Built(instrument) && instrument.is_fresh(
                        old(self).format,
                        old(self).requirements,
                        final(self).is_instance,
                    )),
                },
            },
    {
        let stage = self.stage;
        match (stage, reply) {
            (BuildStage::Idle, InstrumentReply::Begin) => self.go(
                BuildStage::Requirements,
                InstrumentCall::QueryContextRequirements,
            ),
            (BuildStage::Requirements, InstrumentReply::Requirements(flags)) => {
                self.requirements = match flags {
                    Some(f) => f,
                    None => 0,
                };
                self.go(BuildStage::Processor, InstrumentCall::QueryAudioProcessor)
            },
            (BuildStage::Processor, InstrumentReply::Capability(present)) => {
                if present {
                    self.go(
                        BuildStage::Disabling,
                        InstrumentCall::Processor(ProcessorCall::SetProcessing(false)),
                    )
                } else {
                    self.fail(
                        Error::new(
                            ErrorKind::InterfaceNotSupported,
                            "failed to query audio processor interface",
                        ),
                    )
                }
            },
            (BuildStage::Disabling, InstrumentReply::Status(_)) => self.go(
                BuildStage::Controller,
                InstrumentCall::QueryEditController,
            ),
            (BuildStage::Controller, InstrumentReply::Capability(present)) => {
                if present {
                    self.build()
                } else {
                    self.go(BuildStage::ClassId, InstrumentCall::GetControllerClassId)
                }
            },
            (BuildStage::ClassId, InstrumentReply::Status(status)) => {
                if status != kResultOk {
                    self.fail(Error::new(ErrorKind::CallFailed, "failed to get controller class id"))
                } else if !self.plugin_loaded {
                    self.fail(Error::new(ErrorKind::PreconditionFailed, "plugin not loaded"))
                } else {
                    self.go(BuildStage::Creating, InstrumentCall::CreateController)
                }
            },
            (BuildStage::Creating, InstrumentReply::Created(status, present)) => {
                if status != kResultOk || !present {
                    self.fail(Error::new(ErrorKind::CreationFailed, "failed to create instance"))
                } else {
                    self.go(BuildStage::Casting, InstrumentCall::CastEditController)
                }
            },
            (BuildStage::Casting, InstrumentReply::Capability(present)) => {
                if present {
                    self.is_instance = true;
                    self.go(BuildStage::HostContext, InstrumentCall::GetHostContext)
                } else {
                    self.fail(
                        Error::new(
                            ErrorKind::InterfaceNotSupported,
                            "failed to get controller interface",
                        ),
                    )
                }
            },
            (BuildStage::HostContext, InstrumentReply::Status(status)) => {
                if status != kResultOk {
                    self.fail(
                        Error::new(ErrorKind::InterfaceNotSupported, "unable to get host context"),
                    )
                } else {
                    self.go(
                        BuildStage::Initializing,
                        InstrumentCall::Controller(ControllerCall::Initialize),
                    )
                }
            },
            (BuildStage::Initializing, InstrumentReply::Status(status)) => {
                if status != kResultOk {
                    self.fail(
                        Error::new(
                            ErrorKind::InitializationFailed,
                            "failed to initialize edit controller component",
                        ),
                    )
                } else {
                    self.build()
                }
            },
            _ => self.fail(
                Error::new(
                    ErrorKind::PreconditionFailed,
                    "unexpected reply while building instrument",
                ),
            ),
        }
    }
}

} // verus!
