//! The command/event vocabulary that crosses the engine's channel boundary.

use vstd::prelude::*;
use crate::song::SongStub;

verus! {

/// Names one of the two logical audio channels.
#[derive(Debug, PartialEq, Eq, Clone, Copy)]
pub enum DeviceType {
    Track,
    Click,
}

/// A command sent by the UI or library layer, consumed once by the engine.
#[derive(Debug, PartialEq, Eq)]
pub enum PlayerCommand {
    Play(SongStub),
    Pause,
    Stop,
    Quit,
    GetPosition,
    Forward,
    Backward,
    SetDevice(DeviceType, usize),
}

/// A status report emitted by the engine; zero or more follow each command.
///
/// A position is a pair of elapsed and total playback time, in milliseconds.
#[derive(Debug, PartialEq, Eq)]
pub enum PlayerEvent {
    Playing(SongStub),
    LoadFailure(SongStub),
    Position(Option<(u64, u64)>),
    Paused,
    Continuing(Option<SongStub>),
    Stopped,
    Decompressing,
    Decompressed,
    Quit,
}

/// The coarse transport state that an observer of the event stream can track.
#[derive(Debug, PartialEq, Eq, Clone, Copy)]
pub enum PlayerState {
    Unstarted,
    Stopped,
    Playing,
    Paused,
}

} // verus!
