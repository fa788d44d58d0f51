//! Transport commands for the external media player.

use vstd::prelude::*;

verus! {

/// A message for the audio-control handler: start or stop playback.
#[derive(Debug, Clone, Copy, PartialEq, Eq, Structural)]
pub enum Message {
    Play,
    Pause,
}

} // verus!
