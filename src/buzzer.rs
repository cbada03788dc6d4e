use vstd::prelude::*;

verus! {

/// Why no audio output could be set up.
#[derive(Clone, Copy, Debug, PartialEq, Eq, Structural)]
pub enum BuzzerError {
    NoOutputDevice,
    NoAvaliableConfigs,
}

impl BuzzerError {
    /// A sentence describing the error.
    pub fn message(&self) -> (r: String)
        ensures
            r@ == (match self {
                BuzzerError::NoOutputDevice => "No output device was found"@,
                BuzzerError::NoAvaliableConfigs => "Unable to fetch a stream config"@,
            }),
    {
        match self {
            BuzzerError::NoOutputDevice => "No output device was found".to_owned(),
            BuzzerError::NoAvaliableConfigs => "Unable to fetch a stream config".to_owned(),
        }
    }
}

/// What the audio device has to do after a buzzer state change.
#[derive(Clone, Copy, Debug, PartialEq, Eq, Structural)]
pub enum BuzzerCommand {
    /// Nothing changes.
    Keep,
    /// Start the tone, building the output stream first when `build_stream`.
    Play { build_stream: bool },
    /// Pause the existing stream.
    Pause,
}

/// The buzzer's state, apart from the device itself.
#[derive(Clone, Copy, Debug, PartialEq, Eq, Structural)]
pub struct BuzzerState {
    pub muted: bool,
    pub playing: bool,
    /// Whether an output stream exists (it is built on the first play).
    pub has_stream: bool,
}

impl BuzzerState {
    /// The state and the device command after asking to play (`state`) or
    /// to stop. Nothing happens when the state is already the requested one,
    /// or when asked to play while muted.
    pub open spec fn playing_spec(self, state: bool) -> (BuzzerState, BuzzerCommand) {
        if self.playing == state || (state && self.muted) {
            (self, BuzzerCommand::Keep)
        } else if state {
            (BuzzerState { playing: true, has_stream: true, ..self }, BuzzerCommand::Play { build_stream: !self.has_stream })
        } else {
            (BuzzerState { playing: false, ..self }, if self.has_stream { BuzzerCommand::Pause } else { BuzzerCommand::Keep })
        }
    }

    /// The state and the device command after muting (`state`) or unmuting;
    /// muting also stops the tone.
    pub open spec fn muted_spec(self, state: bool) -> (BuzzerState, BuzzerCommand) {
        let s = BuzzerState { muted: state, ..self };
        if state { s.playing_spec(false) } else { (s, BuzzerCommand::Keep) }
    }

    /// Silent, unmuted, no stream yet.
    pub fn new() -> (r: BuzzerState)
        ensures
            r == (BuzzerState { muted: false, playing: false, has_stream: false }),
    {
        BuzzerState { muted: false, playing: false, has_stream: false }
    }

    /// Starts or stops the tone. Nothing happens when the state is already
    /// the requested one, or when asked to play while muted.
    pub fn set_playing(&mut self, state: bool) -> (r: BuzzerCommand)
        ensures
            (*final(self), r) == old(self).playing_spec(state),
    {
        if self.playing == state {
            return BuzzerCommand::Keep;
        }
        if state && self.muted {
            return BuzzerCommand::Keep;
        }
        self.playing = state;
        if state {
            let build_stream = !self.has_stream;
            self.has_stream = true;
            BuzzerCommand::Play { build_stream }
        } else if self.has_stream {
            BuzzerCommand::Pause
        } else {
            BuzzerCommand::Keep
        }
    }

    /// Mutes or unmutes; muting also stops the tone.
    pub fn set_muted(&mut self, state: bool) -> (r: BuzzerCommand)
        ensures
            (*final(self), r) == old(self).muted_spec(state),
            final(self).muted == state,
            state ==> !final(self).playing,
    {
        self.muted = state;
        if state {
            self.set_playing(false)
        } else {
            BuzzerCommand::Keep
        }
    }
}

} // verus!
