//! The engine's guarantees, stated and proved over the spec transitions that
//! every exec handler is tied to.

use vstd::prelude::*;
use crate::engine::{
    step_command, step_decoded, step_extracted, step_position, step_probed, step_started,
    Engine, EngineAction,
};
use crate::messages::{PlayerCommand, PlayerEvent};
use crate::song::SongStub;

verus! {

/// The decode-and-start tail of a `Play` chain: the state reached and the
/// events published from the decode report onward, given the four outcomes.
pub open spec fn load_chain(s: Engine, stub: SongStub, track_decoded: bool, click_decoded: bool, track_started: bool, click_started: bool) -> (Engine, Seq<PlayerEvent>) {
    let decoded = step_decoded(s, stub, track_decoded, click_decoded);
    if track_decoded && click_decoded {
        let started = step_started(decoded.0, stub, track_started, click_started);
        (started.0, decoded.1 + started.1)
    } else {
        (decoded.0, decoded.1)
    }
}

/// A whole `Play` transaction: the state reached and the events published
/// across the command chain, given the outcomes the surroundings report
/// (file presence, extraction, the two decodes, the two starts).
pub open spec fn play_chain(s: Engine, stub: SongStub, present: bool, extract_ok: bool, track_decoded: bool, click_decoded: bool, track_started: bool, click_started: bool) -> (Engine, Seq<PlayerEvent>) {
    let issued = step_command(s, PlayerCommand::Play(stub));
    if s.done {
        (issued.0, issued.1)
    } else {
        let probed = step_probed(issued.0, stub, present);
        if present {
            let loaded = load_chain(probed.0, stub, track_decoded, click_decoded, track_started, click_started);
            (loaded.0, issued.1 + probed.1 + loaded.1)
        } else {
            let extracted = step_extracted(probed.0, stub, extract_ok);
            if extract_ok {
                let loaded = load_chain(extracted.0, stub, track_decoded, click_decoded, track_started, click_started);
                (loaded.0, issued.1 + probed.1 + extracted.1 + loaded.1)
            } else {
                (extracted.0, issued.1 + probed.1 + extracted.1)
            }
        }
    }
}

/// Whether an event is the `Playing` report that commits a `Play`.
pub open spec fn is_playing_event(e: PlayerEvent) -> bool {
    e matches PlayerEvent::Playing(_)
}

/// Whether an event is the `LoadFailure` report of a failed `Play`.
pub open spec fn is_load_failure_event(e: PlayerEvent) -> bool {
    e matches PlayerEvent::LoadFailure(_)
}

/// How many `Playing` events a published sequence holds.
pub open spec fn playing_count(events: Seq<PlayerEvent>) -> nat {
    events.filter(|e: PlayerEvent| is_playing_event(e)).len()
}

/// How many `LoadFailure` events a published sequence holds.
pub open spec fn load_failure_count(events: Seq<PlayerEvent>) -> nat {
    events.filter(|e: PlayerEvent| is_load_failure_event(e)).len()
}

/// A `Play` transaction settles exactly once, whatever its surroundings
/// report: when the files are found (or extracted) and both decodes and both
/// starts succeed, the published events hold exactly one `Playing` and no
/// `LoadFailure`; on any failure they hold exactly one `LoadFailure` and no
/// `Playing`. Never both, never neither.
pub proof fn lemma_play_settles_once(s: Engine, stub: SongStub, present: bool, extract_ok: bool, track_decoded: bool, click_decoded: bool, track_started: bool, click_started: bool)
    requires
        !s.done,
    ensures
        ({
            let events = play_chain(s, stub, present, extract_ok, track_decoded, click_decoded, track_started, click_started).1;
            let success = (present || extract_ok) && track_decoded && click_decoded && track_started && click_started;
            &&& playing_count(events) == (if success { 1nat } else { 0nat })
            &&& load_failure_count(events) == (if success { 0nat } else { 1nat })
        }),
{
    reveal_with_fuel(Seq::<PlayerEvent>::filter, 5);
    let events = play_chain(s, stub, present, extract_ok, track_decoded, click_decoded, track_started, click_started).1;
    if present {
        if track_decoded && click_decoded && track_started && click_started {
            assert(events =~= seq![PlayerEvent::Playing(stub)]);
        } else if track_decoded && click_decoded {
            assert(events =~= seq![PlayerEvent::LoadFailure(stub)]);
        } else {
            assert(events =~= seq![PlayerEvent::LoadFailure(stub)]);
        }
    } else if extract_ok {
        if track_decoded && click_decoded && track_started && click_started {
            assert(events =~= seq![
                PlayerEvent::Decompressing,
                PlayerEvent::Decompressed,
                PlayerEvent::Playing(stub),
            ]);
        } else if track_decoded && click_decoded {
            assert(events =~= seq![
                PlayerEvent::Decompressing,
                PlayerEvent::Decompressed,
                PlayerEvent::LoadFailure(stub),
            ]);
        } else {
            assert(events =~= seq![
                PlayerEvent::Decompressing,
                PlayerEvent::Decompressed,
                PlayerEvent::LoadFailure(stub),
            ]);
        }
    } else {
        assert(events =~= seq![PlayerEvent::Decompressing, PlayerEvent::LoadFailure(stub)]);
    }
}

/// When both files pre-exist and both sessions decode and start, a `Play`
/// publishes exactly one event, `Playing(stub)` — in particular no
/// `LoadFailure` and no `Decompressing` — and commits the selection.
pub proof fn lemma_play_files_present(s: Engine, stub: SongStub, extract_ok: bool)
    requires
        !s.done,
    ensures
        play_chain(s, stub, true, extract_ok, true, true, true, true).1
            == seq![PlayerEvent::Playing(stub)],
        play_chain(s, stub, true, extract_ok, true, true, true, true).0.current_selection
            == Some(stub),
        play_chain(s, stub, true, extract_ok, true, true, true, true).0.is_playing,
{
    assert(play_chain(s, stub, true, extract_ok, true, true, true, true).1
        =~= seq![PlayerEvent::Playing(stub)]);
}

/// When the files are absent but a valid archive is extracted and both
/// sessions then decode and start, a `Play` publishes exactly
/// `Decompressing`, `Decompressed`, `Playing(stub)`, in that order.
pub proof fn lemma_play_after_decompress(s: Engine, stub: SongStub)
    requires
        !s.done,
    ensures
        play_chain(s, stub, false, true, true, true, true, true).1
            == seq![PlayerEvent::Decompressing, PlayerEvent::Decompressed, PlayerEvent::Playing(stub)],
        play_chain(s, stub, false, true, true, true, true, true).0.current_selection
            == Some(stub),
        play_chain(s, stub, false, true, true, true, true, true).0.is_playing,
{
    assert(play_chain(s, stub, false, true, true, true, true, true).1
        =~= seq![PlayerEvent::Decompressing, PlayerEvent::Decompressed, PlayerEvent::Playing(stub)]);
}

/// When the files are absent and the archive fallback fails, a `Play`
/// publishes exactly `Decompressing` then `LoadFailure(stub)`, and the
/// selection ends unset, whatever the decode or start outcomes would be.
pub proof fn lemma_play_assets_missing(s: Engine, stub: SongStub, track_decoded: bool, click_decoded: bool, track_started: bool, click_started: bool)
    requires
        !s.done,
    ensures
        play_chain(s, stub, false, false, track_decoded, click_decoded, track_started, click_started).1
            == seq![PlayerEvent::Decompressing, PlayerEvent::LoadFailure(stub)],
        play_chain(s, stub, false, false, track_decoded, click_decoded, track_started, click_started).0.current_selection
            is None,
        !play_chain(s, stub, false, false, track_decoded, click_decoded, track_started, click_started).0.is_playing,
{
    assert(play_chain(s, stub, false, false, track_decoded, click_decoded, track_started, click_started).1
        =~= seq![PlayerEvent::Decompressing, PlayerEvent::LoadFailure(stub)]);
}

/// Two `Pause` commands in a row toggle the play state twice and restore the
/// state exactly; from a playing state they publish `Paused` and then
/// `Continuing` with the current selection.
pub proof fn lemma_pause_twice(s: Engine)
    requires
        !s.done,
    ensures
        step_command(step_command(s, PlayerCommand::Pause).0, PlayerCommand::Pause).0 == s,
        s.is_playing ==> step_command(s, PlayerCommand::Pause).1 == seq![PlayerEvent::Paused],
        s.is_playing ==> step_command(step_command(s, PlayerCommand::Pause).0, PlayerCommand::Pause).1
            == seq![PlayerEvent::Continuing(s.current_selection)],
        !s.is_playing ==> step_command(s, PlayerCommand::Pause).1
            == seq![PlayerEvent::Continuing(s.current_selection)],
        !s.is_playing ==> step_command(step_command(s, PlayerCommand::Pause).0, PlayerCommand::Pause).1
            == seq![PlayerEvent::Paused],
{
}

/// All-or-nothing start: when either session fails to start, the engine is
/// not playing, the selection is unset, the caller is told to stop both
/// sessions (rolling back the one that started), and exactly one event is
/// published — a `LoadFailure`, never a `Playing`.
pub proof fn lemma_all_or_nothing_start(s: Engine, stub: SongStub, track_ok: bool, click_ok: bool)
    requires
        !s.done,
        !(track_ok && click_ok),
    ensures
        step_started(s, stub, track_ok, click_ok).1 == seq![PlayerEvent::LoadFailure(stub)],
        step_started(s, stub, track_ok, click_ok).2 == EngineAction::StopBoth,
        !step_started(s, stub, track_ok, click_ok).0.is_playing,
        step_started(s, stub, track_ok, click_ok).0.current_selection is None,
{
}

/// A position query publishes exactly one `Position` event: `None` while the
/// engine is not playing, and the track session's reading `(elapsed, total)`
/// with `elapsed <= total` while it is.
pub proof fn lemma_position_report(s: Engine, pos: Option<(u64, u64)>)
    requires
        !s.done,
        pos matches Some(reading) ==> reading.0 <= reading.1,
    ensures
        !s.is_playing ==> step_position(s, pos).1 == seq![PlayerEvent::Position(None)],
        s.is_playing ==> step_position(s, pos).1 == seq![PlayerEvent::Position(pos)],
{
}

/// `Quit` publishes exactly one `Quit` event and is terminal: afterwards
/// every command and every outcome report leaves the state unchanged,
/// publishes nothing, and asks for no action.
pub proof fn lemma_quit_terminal(s: Engine)
    requires
        !s.done,
    ensures
        step_command(s, PlayerCommand::Quit).1 == seq![PlayerEvent::Quit],
        step_command(s, PlayerCommand::Quit).0.done,
        forall|cmd: PlayerCommand| #[trigger] step_command(step_command(s, PlayerCommand::Quit).0, cmd)
            == (step_command(s, PlayerCommand::Quit).0, Seq::<PlayerEvent>::empty(), EngineAction::Nothing),
        forall|stub: SongStub, present: bool| #[trigger] step_probed(step_command(s, PlayerCommand::Quit).0, stub, present)
            == (step_command(s, PlayerCommand::Quit).0, Seq::<PlayerEvent>::empty(), EngineAction::Nothing),
        forall|stub: SongStub, ok: bool| #[trigger] step_extracted(step_command(s, PlayerCommand::Quit).0, stub, ok)
            == (step_command(s, PlayerCommand::Quit).0, Seq::<PlayerEvent>::empty(), EngineAction::Nothing),
        forall|stub: SongStub, t: bool, c: bool| #[trigger] step_decoded(step_command(s, PlayerCommand::Quit).0, stub, t, c)
            == (step_command(s, PlayerCommand::Quit).0, Seq::<PlayerEvent>::empty(), EngineAction::Nothing),
        forall|stub: SongStub, t: bool, c: bool| #[trigger] step_started(step_command(s, PlayerCommand::Quit).0, stub, t, c)
            == (step_command(s, PlayerCommand::Quit).0, Seq::<PlayerEvent>::empty(), EngineAction::Nothing),
        forall|pos: Option<(u64, u64)>| #[trigger] step_position(step_command(s, PlayerCommand::Quit).0, pos)
            == (step_command(s, PlayerCommand::Quit).0, Seq::<PlayerEvent>::empty(), EngineAction::Nothing),
{
    let q = step_command(s, PlayerCommand::Quit).0;
    assert forall|cmd: PlayerCommand| #[trigger] step_command(q, cmd)
        == (q, Seq::<PlayerEvent>::empty(), EngineAction::Nothing) by {
        assert(step_command(q, cmd).1 =~= Seq::<PlayerEvent>::empty());
    }
    assert forall|stub: SongStub, present: bool| #[trigger] step_probed(q, stub, present)
        == (q, Seq::<PlayerEvent>::empty(), EngineAction::Nothing) by {
        assert(step_probed(q, stub, present).1 =~= Seq::<PlayerEvent>::empty());
    }
    assert forall|stub: SongStub, ok: bool| #[trigger] step_extracted(q, stub, ok)
        == (q, Seq::<PlayerEvent>::empty(), EngineAction::Nothing) by {
        assert(step_extracted(q, stub, ok).1 =~= Seq::<PlayerEvent>::empty());
    }
    assert forall|stub: SongStub, t: bool, c: bool| #[trigger] step_decoded(q, stub, t, c)
        == (q, Seq::<PlayerEvent>::empty(), EngineAction::Nothing) by {
        assert(step_decoded(q, stub, t, c).1 =~= Seq::<PlayerEvent>::empty());
    }
    assert forall|stub: SongStub, t: bool, c: bool| #[trigger] step_started(q, stub, t, c)
        == (q, Seq::<PlayerEvent>::empty(), EngineAction::Nothing) by {
        assert(step_started(q, stub, t, c).1 =~= Seq::<PlayerEvent>::empty());
    }
    assert forall|pos: Option<(u64, u64)>| #[trigger] step_position(q, pos)
        == (q, Seq::<PlayerEvent>::empty(), EngineAction::Nothing) by {
        assert(step_position(q, pos).1 =~= Seq::<PlayerEvent>::empty());
    }
}

} // verus!
