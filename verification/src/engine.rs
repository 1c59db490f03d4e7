//! The dual-track playback engine.
//!
//! The engine is a state machine: every decision it makes is a function of
//! its state, the command it received, and the outcomes that its surroundings
//! report back. Each exec handler returns the events to publish and the next
//! `EngineAction` for the caller to perform on the two audio output sessions
//! or on the filesystem; the handler's contract ties the result to a spec
//! transition function, so the whole command protocol is stated here.
//!
//! A `Play` command runs as a chain: `handle_command` asks the caller to
//! probe for the track file (`Probe`); `on_probed` either proceeds to decode
//! (`Load`) or announces decompression and asks for extraction (`Extract`);
//! `on_extracted` reports the archive outcome; `on_decoded` asks to start
//! both sessions (`Start`) only when both sources decoded; `on_started`
//! commits the new selection only when both sessions started. Every failure
//! along the chain emits exactly one `LoadFailure` and clears the selection,
//! so the track/click pair is never observed half-playing.

use vstd::prelude::*;
use crate::messages::{DeviceType, PlayerCommand, PlayerEvent};
use crate::song::SongStub;

verus! {

/// What the engine asks its surroundings to do next. The caller performs the
/// action against the two audio sessions or the filesystem and, where the
/// action names a follow-up handler, reports the outcome back to the engine.
#[derive(Debug, PartialEq, Eq)]
pub enum EngineAction {
    /// Nothing further: the command is fully handled.
    Nothing,
    /// Set both sessions to not playing, check whether the song's track file
    /// exists on disk, and report through `on_probed`.
    Probe(SongStub),
    /// Extract the song's archive into its folder and report through
    /// `on_extracted`. Extraction is disk work: whether it succeeds, fails,
    /// or even unwinds inside the extractor on a corrupt archive, the caller
    /// reports an outcome, and either `step_extracted` transition follows.
    Extract(SongStub),
    /// Decode the song's two sources and report through `on_decoded`.
    Load(SongStub),
    /// Stop both sessions, then start both on the decoded sources and report
    /// through `on_started`.
    Start(SongStub),
    /// Set both sessions' play/pause flag to the given value, as one pair.
    SetPlaying(bool),
    /// Stop both sessions, as one pair.
    StopBoth,
    /// Query the track session's position and report through `on_position`.
    QueryPosition,
    /// Seek both sessions forward by the fixed step, keeping them in step.
    SeekForward,
    /// Seek both sessions backward by the fixed step, keeping them in step.
    SeekBackward,
    /// Stop both sessions and end the engine's execution context after a
    /// short grace delay that lets the final event flush to the UI.
    Shutdown,
}

/// The engine's runtime state. `current_selection` is `Some` exactly while
/// the last successful `Play` has not been followed by a `Stop`, a `Quit`,
/// or a failed reload. `done` is set by `Quit` and is terminal: afterwards
/// every handler leaves the state unchanged and emits nothing.
pub struct Engine {
    pub current_selection: Option<SongStub>,
    pub is_playing: bool,
    pub track_device: usize,
    pub click_device: usize,
    pub done: bool,
}

/// The state a fresh engine starts in: nothing selected, nothing playing,
/// both channels bound to the first enumerated device.
pub open spec fn initial_engine() -> Engine {
    Engine {
        current_selection: None,
        is_playing: false,
        track_device: 0,
        click_device: 0,
        done: false,
    }
}

/// The transition a command makes: the new state, the events to publish, and
/// the action the caller must perform.
///
/// `Stop` both clears the selection and asks the caller to halt the pair:
/// the engine treats `Stop` as a real transport stop, not a status-only
/// report, so the state it tracks never drifts from what is audible.
pub open spec fn step_command(s: Engine, cmd: PlayerCommand) -> (Engine, Seq<PlayerEvent>, EngineAction) {
    if s.done {
        (s, seq![], EngineAction::Nothing)
    } else {
        match cmd {
            PlayerCommand::Play(stub) => (
                Engine { is_playing: false, ..s },
                seq![],
                EngineAction::Probe(stub),
            ),
            PlayerCommand::Pause => if s.is_playing {
                (
                    Engine { is_playing: false, ..s },
                    seq![PlayerEvent::Paused],
                    EngineAction::SetPlaying(false),
                )
            } else {
                (
                    Engine { is_playing: true, ..s },
                    seq![PlayerEvent::Continuing(s.current_selection)],
                    EngineAction::SetPlaying(true),
                )
            },
            PlayerCommand::Stop => (
                Engine { current_selection: None, is_playing: false, ..s },
                seq![PlayerEvent::Stopped],
                EngineAction::StopBoth,
            ),
            PlayerCommand::Quit => (
                Engine { current_selection: None, is_playing: false, done: true, ..s },
                seq![PlayerEvent::Quit],
                EngineAction::Shutdown,
            ),
            PlayerCommand::GetPosition => (s, seq![], EngineAction::QueryPosition),
            PlayerCommand::Forward => (s, seq![], EngineAction::SeekForward),
            PlayerCommand::Backward => (s, seq![], EngineAction::SeekBackward),
            PlayerCommand::SetDevice(device_type, index) => match device_type {
                DeviceType::Track => (Engine { track_device: index, ..s }, seq![], EngineAction::Nothing),
                DeviceType::Click => (Engine { click_device: index, ..s }, seq![], EngineAction::Nothing),
            },
        }
    }
}

/// The transition after the file probe: present files go straight to decode;
/// absent files announce `Decompressing` and ask for the archive fallback.
pub open spec fn step_probed(s: Engine, stub: SongStub, present: bool) -> (Engine, Seq<PlayerEvent>, EngineAction) {
    if s.done {
        (s, seq![], EngineAction::Nothing)
    } else if present {
        (s, seq![], EngineAction::Load(stub))
    } else {
        (s, seq![PlayerEvent::Decompressing], EngineAction::Extract(stub))
    }
}

/// The transition after the archive extraction: success announces
/// `Decompressed` and proceeds to decode; failure emits one `LoadFailure`,
/// clears the selection, and ends the chain (no automatic retry).
pub open spec fn step_extracted(s: Engine, stub: SongStub, ok: bool) -> (Engine, Seq<PlayerEvent>, EngineAction) {
    if s.done {
        (s, seq![], EngineAction::Nothing)
    } else if ok {
        (s, seq![PlayerEvent::Decompressed], EngineAction::Load(stub))
    } else {
        (
            Engine { current_selection: None, ..s },
            seq![PlayerEvent::LoadFailure(stub)],
            EngineAction::Nothing,
        )
    }
}

/// The transition after decoding: only when both sources decoded does the
/// engine ask to start the pair; otherwise one `LoadFailure` is emitted, the
/// selection is cleared, and no session is ever started.
pub open spec fn step_decoded(s: Engine, stub: SongStub, track_ok: bool, click_ok: bool) -> (Engine, Seq<PlayerEvent>, EngineAction) {
    if s.done {
        (s, seq![], EngineAction::Nothing)
    } else if track_ok && click_ok {
        (s, seq![], EngineAction::Start(stub))
    } else {
        (
            Engine { current_selection: None, ..s },
            seq![PlayerEvent::LoadFailure(stub)],
            EngineAction::Nothing,
        )
    }
}

/// The transition after the start attempt: all-or-nothing. Only when both
/// sessions started does the engine commit the selection, mark itself
/// playing, and emit the one `Playing` event; if either failed, the caller
/// is told to stop both (rolling back the one that did start) and exactly
/// one `LoadFailure` is emitted.
pub open spec fn step_started(s: Engine, stub: SongStub, track_ok: bool, click_ok: bool) -> (Engine, Seq<PlayerEvent>, EngineAction) {
    if s.done {
        (s, seq![], EngineAction::Nothing)
    } else if track_ok && click_ok {
        (
            Engine { current_selection: Some(stub), is_playing: true, ..s },
            seq![PlayerEvent::Playing(stub)],
            EngineAction::SetPlaying(true),
        )
    } else {
        (
            Engine { current_selection: None, is_playing: false, ..s },
            seq![PlayerEvent::LoadFailure(stub)],
            EngineAction::StopBoth,
        )
    }
}

/// The transition after the position query: exactly one `Position` event,
/// carrying the track session's reading only while the engine is playing and
/// `None` otherwise.
pub open spec fn step_position(s: Engine, pos: Option<(u64, u64)>) -> (Engine, Seq<PlayerEvent>, EngineAction) {
    if s.done {
        (s, seq![], EngineAction::Nothing)
    } else {
        (
            s,
            seq![PlayerEvent::Position(if s.is_playing { pos } else { None })],
            EngineAction::Nothing,
        )
    }
}

impl Engine {
    /// A fresh engine: idle, with both channels on the default device.
    pub fn new() -> (e: Engine)
        ensures
            e == initial_engine(),
    {
        Engine {
            current_selection: None,
            is_playing: false,
            track_device: 0,
            click_device: 0,
            done: false,
        }
    }

    /// A copy of the current selection, for events that carry it.
    fn clone_selection(&self) -> (r: Option<SongStub>)
        ensures
            r == self.current_selection,
    {
        match &self.current_selection {
            None => None,
            Some(stub) => Some(stub.clone()),
        }
    }

    /// Processes one command from the channel: applies `step_command`.
    pub fn handle_command(&mut self, cmd: PlayerCommand) -> (r: (Vec<PlayerEvent>, EngineAction))
        ensures
            *final(self) == step_command(*old(self), cmd).0,
            r.0@ == step_command(*old(self), cmd).1,
            r.1 == step_command(*old(self), cmd).2,
    {
        if self.done {
            return (Vec::new(), EngineAction::Nothing);
        }
        match cmd {
            PlayerCommand::Play(stub) => {
                self.is_playing = false;
                (Vec::new(), EngineAction::Probe(stub))
            },
            PlayerCommand::Pause => {
                if self.is_playing {
                    self.is_playing = false;
                    let mut events: Vec<PlayerEvent> = Vec::new();
                    events.push(PlayerEvent::Paused);
                    (events, EngineAction::SetPlaying(false))
                } else {
                    self.is_playing = true;
                    let selection = self.clone_selection();
                    let mut events: Vec<PlayerEvent> = Vec::new();
                    events.push(PlayerEvent::Continuing(selection));
                    (events, EngineAction::SetPlaying(true))
                }
            },
            PlayerCommand::Stop => {
                self.current_selection = None;
                self.is_playing = false;
                let mut events: Vec<PlayerEvent> = Vec::new();
                events.push(PlayerEvent::Stopped);
                (events, EngineAction::StopBoth)
            },
            PlayerCommand::Quit => {
                self.current_selection = None;
                self.is_playing = false;
                self.done = true;
                let mut events: Vec<PlayerEvent> = Vec::new();
                events.push(PlayerEvent::Quit);
                (events, EngineAction::Shutdown)
            },
            PlayerCommand::GetPosition => (Vec::new(), EngineAction::QueryPosition),
            PlayerCommand::Forward => (Vec::new(), EngineAction::SeekForward),
            PlayerCommand::Backward => (Vec::new(), EngineAction::SeekBackward),
            PlayerCommand::SetDevice(device_type, index) => {
                match device_type {
                    DeviceType::Track => {
                        self.track_device = index;
                    },
                    DeviceType::Click => {
                        self.click_device = index;
                    },
                }
                (Vec::new(), EngineAction::Nothing)
            },
        }
    }

    /// Takes the outcome of the file probe: applies `step_probed`.
    pub fn on_probed(&mut self, stub: SongStub, track_file_present: bool) -> (r: (Vec<PlayerEvent>, EngineAction))
        ensures
            *final(self) == step_probed(*old(self), stub, track_file_present).0,
            r.0@ == step_probed(*old(self), stub, track_file_present).1,
            r.1 == step_probed(*old(self), stub, track_file_present).2,
    {
        if self.done {
            return (Vec::new(), EngineAction::Nothing);
        }
        if track_file_present {
            (Vec::new(), EngineAction::Load(stub))
        } else {
            let mut events: Vec<PlayerEvent> = Vec::new();
            events.push(PlayerEvent::Decompressing);
            (events, EngineAction::Extract(stub))
        }
    }

    /// Takes the outcome of the archive extraction: applies `step_extracted`.
    pub fn on_extracted(&mut self, stub: SongStub, ok: bool) -> (r: (Vec<PlayerEvent>, EngineAction))
        ensures
            *final(self) == step_extracted(*old(self), stub, ok).0,
            r.0@ == step_extracted(*old(self), stub, ok).1,
            r.1 == step_extracted(*old(self), stub, ok).2,
    {
        if self.done {
            return (Vec::new(), EngineAction::Nothing);
        }
        if ok {
            let mut events: Vec<PlayerEvent> = Vec::new();
            events.push(PlayerEvent::Decompressed);
            (events, EngineAction::Load(stub))
        } else {
            self.current_selection = None;
            let mut events: Vec<PlayerEvent> = Vec::new();
            events.push(PlayerEvent::LoadFailure(stub));
            (events, EngineAction::Nothing)
        }
    }

    /// Takes the outcome of decoding the two sources: applies `step_decoded`.
    pub fn on_decoded(&mut self, stub: SongStub, track_ok: bool, click_ok: bool) -> (r: (Vec<PlayerEvent>, EngineAction))
        ensures
            *final(self) == step_decoded(*old(self), stub, track_ok, click_ok).0,
            r.0@ == step_decoded(*old(self), stub, track_ok, click_ok).1,
            r.1 == step_decoded(*old(self), stub, track_ok, click_ok).2,
    {
        if self.done {
            return (Vec::new(), EngineAction::Nothing);
        }
        if track_ok && click_ok {
            (Vec::new(), EngineAction::Start(stub))
        } else {
            self.current_selection = None;
            let mut events: Vec<PlayerEvent> = Vec::new();
            events.push(PlayerEvent::LoadFailure(stub));
            (events, EngineAction::Nothing)
        }
    }

    /// Takes the outcome of the start attempt: applies `step_started`.
    pub fn on_started(&mut self, stub: SongStub, track_ok: bool, click_ok: bool) -> (r: (Vec<PlayerEvent>, EngineAction))
        ensures
            *final(self) == step_started(*old(self), stub, track_ok, click_ok).0,
            r.0@ == step_started(*old(self), stub, track_ok, click_ok).1,
            r.1 == step_started(*old(self), stub, track_ok, click_ok).2,
    {
        if self.done {
            return (Vec::new(), EngineAction::Nothing);
        }
        if track_ok && click_ok {
            let copy = stub.clone();
            self.current_selection = Some(copy);
            self.is_playing = true;
            let mut events: Vec<PlayerEvent> = Vec::new();
            events.push(PlayerEvent::Playing(stub));
            (events, EngineAction::SetPlaying(true))
        } else {
            self.current_selection = None;
            self.is_playing = false;
            let mut events: Vec<PlayerEvent> = Vec::new();
            events.push(PlayerEvent::LoadFailure(stub));
            (events, EngineAction::StopBoth)
        }
    }

    /// Takes the track session's position reading: applies `step_position`.
    pub fn on_position(&mut self, pos: Option<(u64, u64)>) -> (r: (Vec<PlayerEvent>, EngineAction))
        ensures
            *final(self) == step_position(*old(self), pos).0,
            r.0@ == step_position(*old(self), pos).1,
            r.1 == step_position(*old(self), pos).2,
    {
        if self.done {
            return (Vec::new(), EngineAction::Nothing);
        }
        let reading = if self.is_playing { pos } else { None };
        let mut events: Vec<PlayerEvent> = Vec::new();
        events.push(PlayerEvent::Position(reading));
        (events, EngineAction::Nothing)
    }
}

} // verus!
