//! The surface that a user-interface layer implements on top of the engine.
//!
//! The engine never calls these methods; they are the vocabulary through
//! which a UI turns key presses into `PlayerCommand` values and consumes the
//! engine's `PlayerEvent` stream. An implementation lives with the UI, next
//! to the terminal or window toolkit it draws with.

use vstd::prelude::*;
use crate::messages::PlayerCommand;

verus! {

/// The actions a UI offers the user: each sends a command to the engine or
/// moves the UI's own focus or selection.
pub trait UiCommandTrait {
    /// Asks the user to confirm, then requests engine shutdown.
    fn do_exit(&mut self);

    /// Tears the UI down once the engine has reported `Quit`.
    fn on_exit(&mut self);

    /// Toggles play/pause of the current pair.
    fn do_pause(&mut self);

    /// Plays the song the UI currently selects.
    fn do_playback(&mut self);

    /// Moves the UI selection to the next song.
    fn do_next(&mut self);

    /// Moves the UI selection to the previous song.
    fn do_previous(&mut self);

    /// Switches the UI focus between the library and the queue.
    fn do_tab(&mut self);

    /// Advances the selection and plays it.
    fn do_autoplay(&mut self);

    /// Seeks both channels forward by the fixed step.
    fn do_forward(&mut self);

    /// Seeks both channels backward by the fixed step.
    fn do_backward(&mut self);
}

/// The library index that moving the selection forward lands on: one ahead,
/// wrapping to the first song after the last.
pub fn next_selection(selected: usize, song_count: usize) -> (r: usize)
    requires
        selected < song_count,
    ensures
        r < song_count,
        r == if selected + 1 == song_count { 0int } else { selected + 1 },
{
    if selected + 1 == song_count {
        0
    } else {
        selected + 1
    }
}

/// The library index that moving the selection backward lands on: one back,
/// wrapping to the last song before the first.
pub fn previous_selection(selected: usize, song_count: usize) -> (r: usize)
    requires
        selected < song_count,
    ensures
        r < song_count,
        r == if selected == 0 { song_count - 1 } else { selected - 1 },
{
    if selected == 0 {
        song_count - 1
    } else {
        selected - 1
    }
}

/// The two pumps a UI runs every render tick: its own input events, and the
/// engine's event stream.
pub trait UiEventTrait {
    /// Drains pending UI input and maps it to commands.
    fn handle_ui_events(&mut self);

    /// Drains pending engine events and updates the displayed state.
    fn handle_player_events(&mut self);

    /// Submits one command to the engine's channel.
    fn send_player_command(&mut self, command: PlayerCommand);
}

} // verus!
