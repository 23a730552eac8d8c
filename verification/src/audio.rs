//! The audio device as the host drives it: what is negotiated with the
//! driver when the device is opened, and in which order the driver is
//! started, stopped and given up.

use vstd::prelude::*;
use vstd::string::*;
use crate::error::{Error, ErrorKind};

verus! {

/// Number of channels.
pub type ChannelCount = u16;

/// The number of output channels that the host asks for.
pub const NUM_CHANNELS: usize = 2;

/// Whether the stream is running, as the driver's callback sees it.
pub struct AudioContext {
    running: bool,
}

impl AudioContext {
    pub closed spec fn running(&self) -> bool {
        self.running
    }

    pub fn new() -> (c: Self)
        ensures
            !c.running(),
    {
        Self { running: false }
    }

    pub fn set_running(&mut self, status: bool)
        ensures
            final(self).running() == status,
    {
        self.running = status;
    }

    pub fn is_running(&self) -> (r: bool)
        ensures
            r == self.running(),
    {
        self.running
    }
}

/// What the audio callback is told of the period that is due.
#[derive(Clone, Copy, Debug, PartialEq, Eq, Structural)]
pub struct AudioCallbackInfo {
    /// Which half of each double buffer is to be filled.
    pub buffer_index: usize,
    /// The number of samples in each buffer.
    pub buffer_size: usize,
}

/// The format that was settled with the driver. The sample rate is a
/// double-precision number, kept as its bit pattern.
#[derive(Clone, Copy, Debug, PartialEq, Eq, Structural)]
pub struct AudioFormatInfo {
    pub sample_rate: u64,
    pub num_channels: usize,
    pub buffer_size: usize,
}

/// One thing asked of the audio driver.
#[derive(Clone, Copy, Debug, PartialEq, Eq, Structural)]
pub enum AudioCall {
    /// Load the driver by its name.
    LoadDriver,
    /// Ask for the smallest and the largest buffer size.
    QueryBufferSizeRange,
    /// Ask whether the configured sample rate is supported.
    CanSampleRate,
    /// Set the configured sample rate.
    SetSampleRate,
    /// Prepare an output stream with this many channels and, if given, this buffer size.
    PrepareOutputStream(usize, Option<i32>),
    /// Ask for the sample rate and the buffer size that the stream has.
    QueryFormat,
    /// Register the buffer-ready callback.
    AddCallback,
    /// Start the driver.
    Start,
    /// Remove the buffer-ready callback.
    RemoveCallback,
    /// Stop the driver.
    Stop,
    /// Give up the stream's buffers.
    DisposeBuffers,
    /// Unload the driver.
    Destroy,
}

/// What came of the call that was asked for last while a device is opened.
#[derive(Clone, Copy, Debug)]
pub enum AudioReply {
    /// Nothing was asked for yet.
    Begin,
    /// Whether the driver could be loaded.
    Loaded(bool),
    /// The bounds of the buffer size, if the driver gave them.
    BufferSizeRange(Option<(i32, i32)>),
    /// Whether the sample rate is supported.
    SampleRateSupported(bool),
    /// Whether the sample rate could be set.
    SampleRateSet(bool),
    /// Whether an output stream was prepared.
    Prepared(bool),
    /// The bit pattern of the sample rate and the buffer size of the stream.
    Format(u64, usize),
}

/// How far the opening of a device has come.
#[derive(Clone, Copy, Debug, PartialEq, Eq, Structural)]
pub enum AudioStage {
    Idle,
    Loading,
    Ranging,
    ProbingRate,
    SettingRate,
    Preparing,
    Reading,
    Finished,
}

/// What the opening of a device wants next.
pub enum AudioStep {
    /// Make this call and come back with its outcome.
    Call(AudioCall),
    /// The device is open.
    Opened(Audio),
    /// The device could not be opened.
    Failed(Error),
}

/// The buffer size to ask the driver for: the configured size, brought
/// within the bounds that the driver gave. Nothing is asked for if no size
/// is configured, if the driver gave no bounds, or if its bounds are not
/// positive and in order.
pub open spec fn negotiated_buffer_size(configured: usize, range: Option<(i32, i32)>) -> Option<i32> {
    match range {
        Some((min, max)) => if configured > 0 && 0 < min <= max {
            if configured < min {
                Some(min)
            } else if configured > max {
                Some(max)
            } else {
                Some(configured as i32)
            }
        } else {
            None
        },
        None => None,
    }
}

/// The nanoseconds of a driver timestamp that is given in two halves of
/// thirty-two bits.
pub open spec fn callback_nanos(hi: u32, lo: u32) -> u64 {
    (hi as u64 * 0x1_0000_0000 + lo as u64) as u64
}

/// An open audio device.
pub struct Audio {
    pub context: AudioContext,
    pub driver: bool,
    pub asio_callback_id: bool,
    pub format: AudioFormatInfo,
}

/// The calls that stop a stream: the callback is removed if one is
/// registered, then the driver is stopped. Without a driver nothing is asked.
pub open spec fn stop_calls(driver: bool, callback: bool) -> Seq<AudioCall> {
    if !driver {
        seq![]
    } else if callback {
        seq![AudioCall::RemoveCallback, AudioCall::Stop]
    } else {
        seq![AudioCall::Stop]
    }
}

/// The calls that give a device up: the stream is stopped, then the buffers
/// are disposed and the driver is unloaded.
pub open spec fn close_calls(driver: bool, callback: bool) -> Seq<AudioCall> {
    if driver {
        stop_calls(driver, callback) + seq![AudioCall::DisposeBuffers, AudioCall::Destroy]
    } else {
        seq![]
    }
}

impl Audio {
    /// Starts to open the device: see [`AudioSetup`].
    pub fn new(configured_buffer_size: usize) -> (setup: AudioSetup)
        ensures
            setup.stage == AudioStage::Idle,
            setup.configured_buffer_size == configured_buffer_size,
            setup.buffer_size is None,
    {
        AudioSetup { stage: AudioStage::Idle, configured_buffer_size, buffer_size: None }
    }

    pub fn negotiate_buffer_size(configured: usize, range: Option<(i32, i32)>) -> (r: Option<i32>)
        ensures
            r == negotiated_buffer_size(configured, range),
    {
        match range {
            Some((min, max)) => {
                if configured > 0 && 0 < min && min <= max {
                    if configured < min as usize {
                        Some(min)
                    } else if configured > max as usize {
                        Some(max)
                    } else {
                        Some(configured as i32)
                    }
                } else {
                    None
                }
            },
            None => None,
        }
    }

    /// Prepares the start of the stream: the stream counts as running, and
    /// the callback is registered before the driver is started. A device
    /// without a driver cannot be started.
    pub fn start(&mut self) -> (r: Result<Vec<AudioCall>, Error>)
        ensures
            final(self).driver == old(self).driver,
            final(self).format == old(self).format,
            match r {
                Ok(calls) => old(self).driver && final(self).context.running() && final(self).asio_callback_id && calls@ == seq![AudioCall::AddCallback, AudioCall::Start],
                Err(e) => !old(self).driver && final(self).context.running() == old(self).context.running() && final(self).asio_callback_id == old(self).asio_callback_id
                    && e.is(ErrorKind::PreconditionFailed, "driver not initialized"),
            },
    {
        if !self.driver {
            return Err(Error::new(ErrorKind::PreconditionFailed, "driver not initialized"));
        }
        self.context.set_running(true);
        self.asio_callback_id = true;
        let mut calls: Vec<AudioCall> = Vec::new();
        calls.push(AudioCall::AddCallback);
        calls.push(AudioCall::Start);
        Ok(calls)
    }

    /// Judges the driver's answer to [`AudioCall::Start`].
    pub fn started(&self, ok: bool) -> (r: Result<(), Error>)
        ensures
            match r {
                Ok(()) => ok,
                Err(e) => !ok && e.is(ErrorKind::CallFailed, "failed to start driver"),
            },
    {
        if !ok {
            return Err(Error::new(ErrorKind::CallFailed, "failed to start driver"));
        }
        Ok(())
    }

    /// Stops the stream. The calls to make are returned in their order;
    /// afterwards no callback is registered.
    pub fn stop(&mut self) -> (r: Result<Vec<AudioCall>, Error>)
        ensures
            final(self).driver == old(self).driver,
            final(self).format == old(self).format,
            final(self).context.running() == old(self).context.running(),
            !final(self).asio_callback_id,
            r matches Ok(calls) && calls@ == stop_calls(old(self).driver, old(self).asio_callback_id),
    {
        let mut calls: Vec<AudioCall> = Vec::new();
        if self.driver {
            if self.asio_callback_id {
                calls.push(AudioCall::RemoveCallback);
            }
            calls.push(AudioCall::Stop);
        }
        assert(calls@ =~= stop_calls(self.driver, self.asio_callback_id));
        self.asio_callback_id = false;
        Ok(calls)
    }

    /// Gives the device up. The calls to make are returned in their order;
    /// a device that was given up before asks for none.
    pub fn dispose(&mut self) -> (calls: Vec<AudioCall>)
        ensures
            !final(self).driver,
            !final(self).asio_callback_id,
            final(self).format == old(self).format,
            calls@ == close_calls(old(self).driver, old(self).asio_callback_id),
    {
        let mut calls: Vec<AudioCall> = Vec::new();
        if self.driver {
            if self.asio_callback_id {
                calls.push(AudioCall::RemoveCallback);
            }
            calls.push(AudioCall::Stop);
            calls.push(AudioCall::DisposeBuffers);
            calls.push(AudioCall::Destroy);
        }
        assert(calls@ =~= close_calls(self.driver, self.asio_callback_id));
        self.asio_callback_id = false;
        self.driver = false;
        calls
    }

    pub fn get_format(&self) -> (f: &AudioFormatInfo)
        ensures
            *f == self.format,
    {
        &self.format
    }

    /// What the driver's callback hands on for a period. `context` is the
    /// state of the stream, nothing if it could not be had at once. Nothing
    /// is handed on unless the state is there and the stream is running.
    pub fn on_buffer_ready(context: Option<&AudioContext>, buffer_index: usize, buffer_size: usize) -> (r: Option<AudioCallbackInfo>)
        ensures
            r == match context {
                Some(c) => if c.running() {
                    Some(AudioCallbackInfo { buffer_index, buffer_size })
                } else {
                    None
                },
                None => None,
            },
    {
        match context {
            Some(c) => {
                if c.is_running() {
                    Some(AudioCallbackInfo { buffer_index, buffer_size })
                } else {
                    None
                }
            },
            None => None,
        }
    }

    /// The time of a callback in nanoseconds.
    pub fn get_callback_time(hi: u32, lo: u32) -> (nanos: u64)
        ensures
            nanos == callback_nanos(hi, lo),
    {
        (hi as u64) * 0x1_0000_0000 + (lo as u64)
    }
}

/// Opens an audio device, call by call.
///
/// The driver is loaded; if a buffer size is configured, the driver's bounds
/// are asked for and the size is brought within them; the configured sample
/// rate is set if the driver supports it; an output stream of two channels
/// is prepared; and the format that the stream has is read back.
pub struct AudioSetup {
    pub stage: AudioStage,
    pub configured_buffer_size: usize,
    pub buffer_size: Option<i32>,
}

impl AudioSetup {
    /// Whether the reply answers the call that the stage is waiting for.
    pub open spec fn expects(stage: AudioStage, reply: AudioReply) -> bool {
        match (stage, reply) {
            (AudioStage::Idle, AudioReply::Begin) => true,
            (AudioStage::Loading, AudioReply::Loaded(_)) => true,
            (AudioStage::Ranging, AudioReply::BufferSizeRange(_)) => true,
            (AudioStage::ProbingRate, AudioReply::SampleRateSupported(_)) => true,
            (AudioStage::SettingRate, AudioReply::SampleRateSet(_)) => true,
            (AudioStage::Preparing, AudioReply::Prepared(_)) => true,
            (AudioStage::Reading, AudioReply::Format(_, _)) => true,
            _ => false,
        }
    }

    fn fail(&mut self, kind: ErrorKind, message: &str) -> (step: AudioStep)
        ensures
            final(self).stage == AudioStage::Finished,
            final(self).configured_buffer_size == old(self).configured_buffer_size,
            final(self).buffer_size == old(self).buffer_size,
            step matches AudioStep::Failed(e) && e.is(kind, message),
    {
        self.stage = AudioStage::Finished;
        AudioStep::Failed(Error::new(kind, message))
    }

    /// Takes the outcome of the last call and says what to do next.
    pub fn resume(&mut self, reply: AudioReply) -> (step: AudioStep)
        ensures
            final(self).configured_buffer_size == old(self).configured_buffer_size,
            !Self::expects(old(self).stage, reply) ==> final(self).stage == AudioStage::Finished
                && (step matches AudioStep::Failed(e) && e.is(
                ErrorKind::PreconditionFailed,
                "unexpected reply while opening audio device",
            )),
            Self::expects(old(self).stage, reply) ==> match reply {
                AudioReply::Begin => final(self).stage == AudioStage::Loading
                    && step matches AudioStep::Call(AudioCall::LoadDriver),
                AudioReply::Loaded(false) => final(self).stage == AudioStage::Finished && (
                step matches AudioStep::Failed(e) && e.is(
                    ErrorKind::LoadError,
                    "failed to load driver",
                )),
                AudioReply::Loaded(true) => if old(self).configured_buffer_size > 0 {
                    final(self).stage == AudioStage::Ranging && step matches AudioStep::Call(
                        AudioCall::QueryBufferSizeRange,
                    )
                } else {
                    final(self).stage == AudioStage::ProbingRate && final(self).buffer_size
                        is None && step matches AudioStep::Call(AudioCall::CanSampleRate)
                },
                AudioReply::BufferSizeRange(range) => final(self).stage == AudioStage::ProbingRate
                    && final(self).buffer_size == negotiated_buffer_size(
                    old(self).configured_buffer_size,
                    range,
                ) && step matches AudioStep::Call(AudioCall::CanSampleRate),
                AudioReply::SampleRateSupported(true) => final(self).stage
                    == AudioStage::SettingRate && final(self).buffer_size == old(self).buffer_size
                    && step matches AudioStep::Call(AudioCall::SetSampleRate),
                AudioReply::SampleRateSupported(false) | AudioReply::SampleRateSet(true) => final(
                    self).stage == AudioStage::Preparing && final(self).buffer_size == old(
                    self).buffer_size && (step matches AudioStep::Call(
                    AudioCall::PrepareOutputStream(n, size),
                ) && n == NUM_CHANNELS && size == old(self).buffer_size),
                AudioReply::SampleRateSet(false) => final(self).stage == AudioStage::Finished && (
                step matches AudioStep::Failed(e) && e.is(
                    ErrorKind::NegotiationFailed,
                    "failed to set sample rate",
                )),
                AudioReply::Prepared(true) => final(self).stage == AudioStage::Reading
                    && step matches AudioStep::Call(AudioCall::QueryFormat),
                AudioReply::Prepared(false) => final(self).stage == AudioStage::Finished && (
                step matches AudioStep::Failed(e) && e.is(
                    ErrorKind::NegotiationFailed,
                    "failed to prepare output stream",
                )),
                AudioReply::Format(sample_rate, buffer_size) => final(self).stage
                    == AudioStage::Finished && (step matches AudioStep::Opened(audio)
                    && audio.driver && !audio.asio_callback_id && !audio.context.running()
                    && audio.format == (AudioFormatInfo {
                    sample_rate,
                    num_channels: NUM_CHANNELS,
                    buffer_size,
                })),
            },
    {
        let stage = self.stage;
        match (stage, reply) {
            (AudioStage::Idle, AudioReply::Begin) => {
                self.stage = AudioStage::Loading;
                AudioStep::Call(AudioCall::LoadDriver)
            },
            (AudioStage::Loading, AudioReply::Loaded(loaded)) => {
                if !loaded {
                    self.fail(ErrorKind::LoadError, "failed to load driver")
                } else if self.configured_buffer_size > 0 {
                    self.stage = AudioStage::Ranging;
                    AudioStep::Call(AudioCall::QueryBufferSizeRange)
                } else {
                    self.buffer_size = None;
                    self.stage = AudioStage::ProbingRate;
                    AudioStep::Call(AudioCall::CanSampleRate)
                }
            },
            (AudioStage::Ranging, AudioReply::BufferSizeRange(range)) => {
                self.buffer_size = Audio::negotiate_buffer_size(self.configured_buffer_size, range);
                self.stage = AudioStage::ProbingRate;
                AudioStep::Call(AudioCall::CanSampleRate)
            },
            (AudioStage::ProbingRate, AudioReply::SampleRateSupported(supported)) => {
                if supported {
                    self.stage = AudioStage::SettingRate;
                    AudioStep::Call(AudioCall::SetSampleRate)
                } else {
                    self.stage = AudioStage::Preparing;
                    AudioStep::Call(AudioCall::PrepareOutputStream(NUM_CHANNELS, self.buffer_size))
                }
            },
            (AudioStage::SettingRate, AudioReply::SampleRateSet(set)) => {
                if set {
                    self.stage = AudioStage::Preparing;
                    AudioStep::Call(AudioCall::PrepareOutputStream(NUM_CHANNELS, self.buffer_size))
                } else {
                    self.fail(ErrorKind::NegotiationFailed, "failed to set sample rate")
                }
            },
            (AudioStage::Preparing, AudioReply::Prepared(prepared)) => {
                if prepared {
                    self.stage = AudioStage::Reading;
                    AudioStep::Call(AudioCall::QueryFormat)
                } else {
                    self.fail(ErrorKind::NegotiationFailed, "failed to prepare output stream")
                }
            },
            (AudioStage::Reading, AudioReply::Format(sample_rate, buffer_size)) => {
                self.stage = AudioStage::Finished;
                AudioStep::Opened(
                    Audio {
                        context: AudioContext::new(),
                        driver: true,
                        asio_callback_id: false,
                        format: AudioFormatInfo {
                            sample_rate,
                            num_channels: NUM_CHANNELS,
                            buffer_size,
                        },
                    },
                )
            },
            _ => self.fail(
                ErrorKind::PreconditionFailed,
                "unexpected reply while opening audio device",
            ),
        }
    }
}

} // verus!
