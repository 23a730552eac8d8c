//! The audio-processing capability of a component: the setup that is
//! negotiated with it, the transport record it reads, and the order in which
//! its processing is switched.

use vstd::prelude::*;
use vstd::string::*;
use crate::audio::AudioFormatInfo;
use crate::base::{kResultOk, tresult};
use crate::error::{Error, ErrorKind};

verus! {

/// The block size that is assumed before any is negotiated.
pub const DEFAULT_AUDIO_BUFFER_SIZE: usize = 128;

/// The bit pattern of the tempo of 120 beats per minute.
pub const DEFAULT_TEMPO: u64 = 0x405E_0000_0000_0000;

/// The processing mode for realtime processing.
pub const PROCESS_MODE_REALTIME: i32 = 0;

/// The symbolic sample size of 32-bit samples.
pub const SAMPLE_SIZE_32: i32 = 0;

/// The symbolic sample size of 64-bit samples.
pub const SAMPLE_SIZE_64: i32 = 1;

/// The direction of input buses.
pub const BUS_DIRECTION_INPUT: i32 = 0;

/// The direction of output buses.
pub const BUS_DIRECTION_OUTPUT: i32 = 1;

/// The transport flag that says that the transport is playing.
pub const STATE_PLAYING: u32 = 2;

/// A chord of the transport record.
#[derive(Clone, Copy, Debug, PartialEq, Eq, Structural)]
pub struct Chord {
    pub key_note: u8,
    pub root_note: u8,
    pub chord_mask: i16,
}

/// A frame rate of the transport record.
#[derive(Clone, Copy, Debug, PartialEq, Eq, Structural)]
pub struct FrameRate {
    pub frames_per_second: u32,
    pub flags: u32,
}

/// The transport and timing record that the plugin reads during
/// processing. Numbers that the binary interface keeps in double precision
/// are held as their bit patterns.
#[derive(Clone, Copy, Debug, PartialEq, Eq, Structural)]
pub struct ProcessContext {
    pub state: u32,
    pub sample_rate: u64,
    pub project_time_samples: i64,
    pub system_time: i64,
    pub continuous_time_samples: i64,
    pub project_time_music: u64,
    pub bar_position_music: u64,
    pub cycle_start_music: u64,
    pub cycle_end_music: u64,
    pub tempo: u64,
    pub time_sig_num: i32,
    pub time_sig_den: i32,
    pub chord: Chord,
    pub smpte_offset_subframes: i32,
    pub frame_rate: FrameRate,
    pub samples_to_next_clock: i64,
}

/// The setup that is proposed to the plugin.
#[derive(Clone, Copy, Debug, PartialEq, Eq, Structural)]
pub struct ProcessSetup {
    pub process_mode: i32,
    pub symbolic_sample_size: i32,
    pub max_samples_per_block: i32,
    pub sample_rate: u64,
}

/// One thing asked of the audio processor of a component.
#[derive(Clone, Copy, Debug, PartialEq, Eq, Structural)]
pub enum ProcessorCall {
    /// Propose this setup.
    SetupProcessing(ProcessSetup),
    /// Ask for the latency that the plugin reports.
    GetLatencySamples,
    /// Switch processing on or off.
    SetProcessing(bool),
    /// Process one block.
    Process,
}

/// What was negotiated for processing.
pub struct AudioContext {
    pub audio_format: AudioFormatInfo,
    pub samples_per_block: usize,
    pub latency_samples: usize,
    pub process_context: Box<ProcessContext>,
}

/// The audio processor of a component.
pub struct AudioProcessor {
    pub context: AudioContext,
}

/// A count of samples as it is put into a field of the binary interface
/// that is narrower than the host's own counts: a count that does not fit
/// is cut to the largest that does.
pub open spec fn clipped_i32(n: usize) -> i32 {
    if n > i32::MAX {
        i32::MAX
    } else {
        n as i32
    }
}

/// As [`clipped_i32`], for a field of sixty-four bits.
pub open spec fn clipped_i64(n: usize) -> i64 {
    if n > i64::MAX {
        i64::MAX
    } else {
        n as i64
    }
}

pub fn clip_i32(n: usize) -> (r: i32)
    ensures
        r == clipped_i32(n),
{
    if n > 2147483647 {
        2147483647
    } else {
        n as i32
    }
}

pub fn clip_i64(n: usize) -> (r: i64)
    ensures
        r == clipped_i64(n),
{
    if n as u64 > 9223372036854775807 {
        9223372036854775807
    } else {
        n as i64
    }
}

/// The transport record for a format: the transport plays at the default
/// tempo, at the negotiated sample rate, and everything else is zero but
/// the distance to the next clock, which is one buffer.
pub open spec fn process_context_for(format: AudioFormatInfo) -> ProcessContext {
    ProcessContext {
        state: STATE_PLAYING,
        sample_rate: format.sample_rate,
        project_time_samples: 0,
        system_time: 0,
        continuous_time_samples: 0,
        project_time_music: 0,
        bar_position_music: 0,
        cycle_start_music: 0,
        cycle_end_music: 0,
        tempo: DEFAULT_TEMPO,
        time_sig_num: 0,
        time_sig_den: 0,
        chord: Chord { key_note: 0, root_note: 0, chord_mask: 0 },
        smpte_offset_subframes: 0,
        frame_rate: FrameRate { frames_per_second: 0, flags: 0 },
        samples_to_next_clock: clipped_i64(format.buffer_size),
    }
}

/// The setup that is proposed for a format: realtime processing of 32-bit
/// samples, in blocks of at most one buffer, at the negotiated sample rate.
pub open spec fn process_setup_for(format: AudioFormatInfo) -> ProcessSetup {
    ProcessSetup {
        process_mode: PROCESS_MODE_REALTIME,
        symbolic_sample_size: SAMPLE_SIZE_32,
        max_samples_per_block: clipped_i32(format.buffer_size),
        sample_rate: format.sample_rate,
    }
}

/// The calls by which processing is switched: before it is switched on,
/// the plugin is asked for its latency.
pub open spec fn processing_calls(enable: bool) -> Seq<ProcessorCall> {
    if enable {
        seq![ProcessorCall::GetLatencySamples, ProcessorCall::SetProcessing(true)]
    } else {
        seq![ProcessorCall::SetProcessing(false)]
    }
}

impl AudioProcessor {
    /// Wraps the processing capability of a component for the given format.
    /// A component that does not offer the capability cannot be used as an
    /// instrument.
    pub fn new(capability_present: bool, audio_format: &AudioFormatInfo) -> (r: Result<Self, Error>)
        ensures
            match r {
                Ok(p) => capability_present && p.context.audio_format == *audio_format
                    && p.context.samples_per_block == DEFAULT_AUDIO_BUFFER_SIZE
                    && p.context.latency_samples == 0 && *p.context.process_context
                    == process_context_for(*audio_format),
                Err(e) => !capability_present && e.is(
                    ErrorKind::InterfaceNotSupported,
                    "failed to query audio processor interface",
                ),
            },
    {
        if !capability_present {
            return Err(
                Error::new(
                    ErrorKind::InterfaceNotSupported,
                    "failed to query audio processor interface",
                ),
            );
        }
        let process_context = match Self::create_process_context(audio_format) {
            Ok(c) => c,
            Err(e) => {
                return Err(e);
            },
        };
        Ok(
            Self {
                context: AudioContext {
                    samples_per_block: DEFAULT_AUDIO_BUFFER_SIZE,
                    latency_samples: 0,
                    process_context: Box::new(process_context),
                    audio_format: *audio_format,
                },
            },
        )
    }

    pub fn get_process_context(&self) -> (c: &ProcessContext)
        ensures
            *c == *self.context.process_context,
    {
        &*self.context.process_context
    }

    pub fn get_format(&self) -> (f: &AudioFormatInfo)
        ensures
            *f == self.context.audio_format,
    {
        &self.context.audio_format
    }

    pub fn create_process_context(audio_format: &AudioFormatInfo) -> (r: Result<ProcessContext, Error>)
        ensures
            r matches Ok(c) && c == process_context_for(*audio_format),
    {
        let chord = Chord { key_note: 0, root_note: 0, chord_mask: 0 };
        let frame_rate = FrameRate { frames_per_second: 0, flags: 0 };
        Ok(
            ProcessContext {
                state: STATE_PLAYING,
                sample_rate: audio_format.sample_rate,
                project_time_samples: 0,
                system_time: 0,
                continuous_time_samples: 0,
                project_time_music: 0,
                bar_position_music: 0,
                cycle_start_music: 0,
                cycle_end_music: 0,
                tempo: DEFAULT_TEMPO,
                time_sig_num: 0,
                time_sig_den: 0,
                chord,
                smpte_offset_subframes: 0,
                frame_rate,
                samples_to_next_clock: clip_i64(audio_format.buffer_size),
            },
        )
    }

    /// Gives the processor up: processing is switched off.
    pub fn dispose(&mut self) -> (calls: Vec<ProcessorCall>)
        ensures
            final(self).context == old(self).context,
            calls@ == processing_calls(false),
    {
        self.set_processing(false)
    }

    /// The setup to propose to the plugin.
    pub fn process_setup(&self) -> (setup: ProcessSetup)
        ensures
            setup == process_setup_for(self.context.audio_format),
    {
        ProcessSetup {
            process_mode: PROCESS_MODE_REALTIME,
            symbolic_sample_size: SAMPLE_SIZE_32,
            max_samples_per_block: clip_i32(self.context.audio_format.buffer_size),
            sample_rate: self.context.audio_format.sample_rate,
        }
    }

    /// Judges the plugin's answer to the proposed setup. A plugin that
    /// refuses the setup cannot be used.
    pub fn setup_processing(&mut self, status: tresult) -> (r: Result<(), Error>)
        ensures
            final(self).context == old(self).context,
            match r {
                Ok(()) => status == kResultOk,
                Err(e) => status != kResultOk && e.is(
                    ErrorKind::NegotiationFailed,
                    "failed to setup processing",
                ),
            },
    {
        if status != kResultOk {
            return Err(Error::new(ErrorKind::NegotiationFailed, "failed to setup processing"));
        }
        Ok(())
    }

    /// Switches processing. The calls to make are returned in their order;
    /// what they answer does not matter.
    pub fn set_processing(&mut self, enable: bool) -> (calls: Vec<ProcessorCall>)
        ensures
            final(self).context == old(self).context,
            calls@ == processing_calls(enable),
    {
        let mut calls: Vec<ProcessorCall> = Vec::new();
        if enable {
            calls.push(ProcessorCall::GetLatencySamples);
        }
        calls.push(ProcessorCall::SetProcessing(enable));
        assert(calls@ =~= processing_calls(enable));
        calls
    }

    /// Keeps the latency that the plugin reported.
    pub fn set_latency_samples(&mut self, reported: u32)
        ensures
            final(self).context.latency_samples == reported,
            final(self).context.audio_format == old(self).context.audio_format,
            final(self).context.samples_per_block == old(self).context.samples_per_block,
            final(self).context.process_context == old(self).context.process_context,
    {
        self.context.latency_samples = Self::get_latency_samples(reported);
    }

    /// The arrangement of the first input bus: what the plugin reported, or
    /// zero if it reported failure.
    pub fn get_bus_input_arrangement(&self, status: tresult, arrangement: u64) -> (r: u64)
        ensures
            r == if status == kResultOk {
                arrangement
            } else {
                0
            },
    {
        if status == kResultOk {
            arrangement
        } else {
            0
        }
    }

    /// Whether the plugin accepted an arrangement for its input bus.
    pub fn set_bus_input_arrangements(&self, status: tresult) -> (r: bool)
        ensures
            r == (status == kResultOk),
    {
        status == kResultOk
    }

    /// The arrangement of the first output bus: what the plugin reported, or
    /// zero if it reported failure.
    pub fn get_bus_output_arrangement(&self, status: tresult, arrangement: u64) -> (r: u64)
        ensures
            r == if status == kResultOk {
                arrangement
            } else {
                0
            },
    {
        if status == kResultOk {
            arrangement
        } else {
            0
        }
    }

    /// Whether the plugin accepted an arrangement for its output bus.
    pub fn set_bus_output_arrangements(&self, status: tresult) -> (r: bool)
        ensures
            r == (status == kResultOk),
    {
        status == kResultOk
    }

    /// Whether the plugin said that it can process 32-bit samples.
    pub fn can_process_sample_size_32(status: tresult) -> (r: bool)
        ensures
            r == (status == kResultOk),
    {
        status == kResultOk
    }

    /// Whether the plugin said that it can process 64-bit samples.
    pub fn can_process_sample_size_64(status: tresult) -> (r: bool)
        ensures
            r == (status == kResultOk),
    {
        status == kResultOk
    }

    /// The latency that the plugin reported, as a count of samples.
    pub fn get_latency_samples(reported: u32) -> (r: usize)
        ensures
            r == reported,
    {
        reported as usize
    }

    /// The tail that the plugin reported, as a count of samples.
    pub fn get_tail_samples(reported: u32) -> (r: usize)
        ensures
            r == reported,
    {
        reported as usize
    }

    /// Judges the answer to one processing call. A block that the plugin
    /// failed to process is reported, never treated as an error: the stream
    /// goes on.
    pub fn process(&self, status: tresult) -> (processed: bool)
        ensures
            processed == (status == kResultOk),
    {
        status == kResultOk
    }
}

} // verus!
