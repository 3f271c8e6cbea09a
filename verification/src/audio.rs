//! The audio capability adapter.
//!
//! The tone generator itself runs on the platform's audio callback thread,
//! outside this crate; all this layer decides is whether the underlying
//! streaming device is running. The capability is an abstract trait, so
//! the core can drive the live device or the recording fake below, which
//! scripts no sound but remembers every call.

use vstd::prelude::*;

verus! {

/// An audio capability: play and stop over the streaming device that
/// hosts the tone generator. No intermediate buffering or fade state:
/// the device either runs or is paused.
pub trait AudioCapability: Sized {
    /// Whether the underlying device is currently streaming samples.
    spec fn is_playing(&self) -> bool;

    /// Resumes the device: the tone generator starts receiving
    /// sample-fill callbacks.
    fn play(&mut self)
        ensures
            final(self).is_playing(),
    ;

    /// Pauses the device: no samples are produced until `play` is called
    /// again.
    fn stop(&mut self)
        ensures
            !final(self).is_playing(),
    ;
}

/// A deterministic fake audio device for tests: it tracks the playing
/// state and records every call in order, `true` for play and `false`
/// for stop.
pub struct RecordingAudio {
    playing: bool,
    calls: Vec<bool>,
}

impl RecordingAudio {
    /// A paused device with an empty call log.
    pub fn new() -> (dev: RecordingAudio)
        ensures
            !dev.is_playing(),
            dev.call_log() == Seq::<bool>::empty(),
    {
        RecordingAudio { playing: false, calls: Vec::new() }
    }

    /// The calls recorded so far, oldest first.
    pub closed spec fn call_log(&self) -> Seq<bool> {
        self.calls@
    }

    /// The recorded calls, for a test to inspect: `true` for play,
    /// `false` for stop.
    pub fn calls(&self) -> (log: &Vec<bool>)
        ensures
            log@ == self.call_log(),
    {
        &self.calls
    }
}

impl AudioCapability for RecordingAudio {
    closed spec fn is_playing(&self) -> bool {
        self.playing
    }

    fn play(&mut self)
        ensures
            final(self).call_log() == old(self).call_log().push(true),
    {
        self.playing = true;
        self.calls.push(true);
    }

    fn stop(&mut self)
        ensures
            final(self).call_log() == old(self).call_log().push(false),
    {
        self.playing = false;
        self.calls.push(false);
    }
}

} // verus!
