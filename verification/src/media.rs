//! Media playback state and its native representation.

use vstd::prelude::*;

verus! {

/// The playback state of a media source.
#[derive(Clone, Copy, Debug, PartialEq, Eq, Structural)]
pub enum MediaState {
    Unset,
    Playing,
    Opening,
    Buffering,
    Paused,
    Stopped,
    Ended,
    Error,
}

impl MediaState {
    /// The host's number for this state.
    pub open spec fn to_native_spec(self) -> u32 {
        match self {
            MediaState::Unset => 0,
            MediaState::Playing => 1,
            MediaState::Opening => 2,
            MediaState::Buffering => 3,
            MediaState::Paused => 4,
            MediaState::Stopped => 5,
            MediaState::Ended => 6,
            MediaState::Error => 7,
        }
    }

    /// The state that the host's number `native` stands for, if any.
    pub open spec fn from_native_spec(native: u32) -> Option<MediaState> {
        if native == 0 {
            Some(MediaState::Unset)
        } else if native == 1 {
            Some(MediaState::Playing)
        } else if native == 2 {
            Some(MediaState::Opening)
        } else if native == 3 {
            Some(MediaState::Buffering)
        } else if native == 4 {
            Some(MediaState::Paused)
        } else if native == 5 {
            Some(MediaState::Stopped)
        } else if native == 6 {
            Some(MediaState::Ended)
        } else if native == 7 {
            Some(MediaState::Error)
        } else {
            None
        }
    }

    /// Maps the state onto the host's native representation.
    pub fn to_native(self) -> (native: u32)
        ensures
            native == self.to_native_spec(),
    {
        match self {
            MediaState::Unset => 0,
            MediaState::Playing => 1,
            MediaState::Opening => 2,
            MediaState::Buffering => 3,
            MediaState::Paused => 4,
            MediaState::Stopped => 5,
            MediaState::Ended => 6,
            MediaState::Error => 7,
        }
    }

    /// Reads a state back from the host's native representation; `None` for
    /// a number that stands for no state.
    pub fn from_native(native: u32) -> (state: Option<MediaState>)
        ensures
            state == MediaState::from_native_spec(native),
    {
        match native {
            0 => Some(MediaState::Unset),
            1 => Some(MediaState::Playing),
            2 => Some(MediaState::Opening),
            3 => Some(MediaState::Buffering),
            4 => Some(MediaState::Paused),
            5 => Some(MediaState::Stopped),
            6 => Some(MediaState::Ended),
            7 => Some(MediaState::Error),
            _ => None,
        }
    }
}

/// Mapping a state to its native number and back gives the state again.
pub proof fn lemma_native_round_trip(state: MediaState)
    ensures
        MediaState::from_native_spec(state.to_native_spec()) == Some(state),
{
}

/// No two states share a native number.
pub proof fn lemma_native_distinct(a: MediaState, b: MediaState)
    ensures
        a.to_native_spec() == b.to_native_spec() <==> a == b,
{
}

/// A native number is read back as a state exactly when some state maps to
/// it, and that state maps to it.
pub proof fn lemma_native_read_back(native: u32)
    ensures
        match MediaState::from_native_spec(native) {
            Some(state) => state.to_native_spec() == native,
            None => forall|state: MediaState| state.to_native_spec() != native,
        },
{
}

} // verus!
