//! The Playback Action Dispatcher: deciding, from the registry and the
//! caller's request, which platform command to issue for which session —
//! or that nothing is to be done at all.
//!
//! The command itself is fired by the I/O shell as a detached background
//! task whose outcome is only logged; this module owns every decision:
//! looking the player up, recognizing the action, and converting a seek
//! position from milliseconds to the platform's 100-nanosecond ticks.

use vstd::prelude::*;

use crate::registry::SessionRegistry;

verus! {

/// A recognized playback command.
#[derive(Clone, Copy, PartialEq, Eq, Structural, Debug)]
pub enum MediaAction {
    Play,
    Pause,
    Next,
    Prev,
    /// Seek to this position, in 100-nanosecond ticks.
    Position(i64),
}

/// What one dispatch call decides.
#[derive(Clone, Copy, PartialEq, Eq, Structural, Debug)]
pub enum ActionDispatch {
    /// The player has no registry entry (it may just have ended), or the
    /// request named no recognizable action: succeed with no effect.
    NoEffect,
    /// Issue this command against this platform session.
    Command { session: u64, action: MediaAction },
}

/// A millisecond position expressed in 100-nanosecond ticks.
pub open spec fn position_ticks(position_ms: u64) -> int {
    position_ms * 10000
}

/// The command a request names, if any: an unrecognized action, or a seek
/// without a position, names none.
pub open spec fn parsed_action(action: Seq<char>, position: Option<u64>) -> Option<MediaAction> {
    if action == "play"@ {
        Some(MediaAction::Play)
    } else if action == "pause"@ {
        Some(MediaAction::Pause)
    } else if action == "next"@ {
        Some(MediaAction::Next)
    } else if action == "prev"@ {
        Some(MediaAction::Prev)
    } else if action == "position"@ {
        match position {
            Some(ms) => Some(MediaAction::Position(position_ticks(ms) as i64)),
            None => None,
        }
    } else {
        None
    }
}

/// Decide the dispatch for one action request. A player id without a
/// registry entry is success with no effect — a caller racing a session
/// that just ended must not see an error — and the registry itself is
/// never changed by a dispatch.
pub fn media_action(
    registry: &SessionRegistry,
    player_id: &String,
    action: &String,
    position: Option<u64>,
) -> (r: ActionDispatch)
    requires
        registry.well_formed(),
        position is Some ==> position->0 * 10000 <= i64::MAX,
    ensures
        !registry@.contains_key(player_id@) ==> r == ActionDispatch::NoEffect,
        registry@.contains_key(player_id@) ==> r == (match parsed_action(action@, position) {
            Some(act) => ActionDispatch::Command {
                session: registry@[player_id@].session,
                action: act,
            },
            None => ActionDispatch::NoEffect,
        }),
{
    let store = match registry.get(player_id) {
        Some(store) => store,
        None => {
            return ActionDispatch::NoEffect;
        },
    };
    let act: Option<MediaAction> = if *action == "play".to_owned() {
        Some(MediaAction::Play)
    } else if *action == "pause".to_owned() {
        Some(MediaAction::Pause)
    } else if *action == "next".to_owned() {
        Some(MediaAction::Next)
    } else if *action == "prev".to_owned() {
        Some(MediaAction::Prev)
    } else if *action == "position".to_owned() {
        match position {
            Some(ms) => Some(MediaAction::Position(position_to_ticks(ms))),
            None => None,
        }
    } else {
        None
    };
    match act {
        Some(act) => ActionDispatch::Command { session: store.session, action: act },
        None => ActionDispatch::NoEffect,
    }
}

/// Convert a millisecond seek position to platform ticks.
pub fn position_to_ticks(position_ms: u64) -> (r: i64)
    requires
        position_ms * 10000 <= i64::MAX,
    ensures
        r == position_ticks(position_ms),
{
    (position_ms * 10000) as i64
}

} // verus!
