use vstd::prelude::*;

use crate::session::VadSession;

verus! {

/// Sample rate the capture device is asked for, in Hz.
pub const SAMPLE_RATE: u32 = 16000;

/// Number of samples the voice-activity model scores at once.
pub const CHUNK_SIZE: usize = 512;

/// Seconds of audio kept from before speech starts.
pub const KEEP_PAST_SECONDS: u32 = 5;

/// Pause between two scored ticks, in milliseconds.
pub const POLL_INTERVAL_MS: u64 = 300;

/// Pause between two checks for completion, in milliseconds.
pub const IDLE_POLL_MS: u64 = 100;

/// The fixed settings of a voice-triggered recording session.
pub struct SoundRecorder {
    pub sample_rate: u32,
    pub chunk_size: usize,
    pub keep_past_seconds: u32,
    pub poll_interval_ms: u64,
    pub idle_poll_ms: u64,
}

/// Samples in `seconds` of audio at `rate` Hz, capped at what a `usize` holds.
pub open spec fn keep_samples_of(rate: u32, seconds: u32) -> nat {
    let n = rate as nat * seconds as nat;
    if n > usize::MAX {
        usize::MAX as nat
    } else {
        n
    }
}

impl SoundRecorder {
    /// The settings of a session: 16 kHz, windows of 512 samples, five seconds
    /// of pre-speech audio, a tick every 300 ms and a completion check every
    /// 100 ms.
    pub fn new() -> (r: Self)
        ensures
            r.sample_rate == SAMPLE_RATE,
            r.chunk_size == CHUNK_SIZE,
            r.keep_past_seconds == KEEP_PAST_SECONDS,
            r.poll_interval_ms == POLL_INTERVAL_MS,
            r.idle_poll_ms == IDLE_POLL_MS,
    {
        SoundRecorder {
            sample_rate: SAMPLE_RATE,
            chunk_size: CHUNK_SIZE,
            keep_past_seconds: KEEP_PAST_SECONDS,
            poll_interval_ms: POLL_INTERVAL_MS,
            idle_poll_ms: IDLE_POLL_MS,
        }
    }

    /// How many samples of pre-speech audio a session keeps.
    pub fn keep_samples(&self) -> (r: usize)
        ensures
            r == keep_samples_of(self.sample_rate, self.keep_past_seconds),
    {
        let rate: u64 = self.sample_rate as u64;
        let seconds: u64 = self.keep_past_seconds as u64;
        assert(rate * seconds <= u64::MAX) by (nonlinear_arith)
            requires
                rate <= u32::MAX,
                seconds <= u32::MAX,
        ;
        let n: u64 = rate * seconds;
        if n > usize::MAX as u64 {
            usize::MAX
        } else {
            n as usize
        }
    }

    /// A fresh session under these settings.
    pub fn session<T: Copy>(&self) -> (r: VadSession<T>)
        ensures
            r.state() == crate::speech::SpeechState::NotStarted,
            r.samples() == Seq::<T>::empty(),
            r.keep() == keep_samples_of(self.sample_rate, self.keep_past_seconds),
    {
        VadSession::new(self.keep_samples())
    }
}

} // verus!
