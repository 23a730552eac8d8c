//! The host's clock as the processing code sees it.

use vstd::prelude::*;
use crate::audio_processor::DEFAULT_TEMPO;
use crate::error::Error;

verus! {

/// The running time of the host in nanoseconds and the tempo, the latter a
/// double-precision number kept as its bit pattern.
pub struct TimingContext {
    pub system_time: u64,
    pub tempo: u64,
}

impl Default for TimingContext {
    fn default() -> (t: Self)
        ensures
            t.system_time == 0,
            t.tempo == DEFAULT_TEMPO,
    {
        Self { system_time: 0, tempo: DEFAULT_TEMPO }
    }
}

impl TimingContext {
    /// Takes over the time that has passed since the start, in nanoseconds,
    /// cut to sixty-four bits; zero where the clock gave none.
    pub fn update(&mut self, elapsed_nanos: Option<u128>) -> (r: Result<(), Error>)
        ensures
            r is Ok,
            final(self).tempo == old(self).tempo,
            final(self).system_time == match elapsed_nanos {
                Some(n) => (n % 0x1_0000_0000_0000_0000) as u64,
                None => 0,
            },
    {
        self.system_time = match elapsed_nanos {
            Some(n) => (n % 0x1_0000_0000_0000_0000) as u64,
            None => 0,
        };
        Ok(())
    }
}

/// Makes timing contexts.
pub struct Timing {}

impl Timing {
    pub fn new() -> (r: Result<TimingContext, Error>)
        ensures
            r matches Ok(t) && t.system_time == 0 && t.tempo == DEFAULT_TEMPO,
    {
        Ok(TimingContext::default())
    }
}

} // verus!
