//! The shortcut dispatcher: decodes raw key transitions from the host UI
//! layer into semantic commands and tracks which mapped keys are held.
//!
//! The mapping is fixed and case-sensitive: `l` skips to the next song,
//! space toggles play/pause, `Enter` toggles the star on the current song.
//! A command is emitted only on a fresh press (released to pressed); a
//! release or a repeated press only updates the held state.

use vstd::prelude::*;

use crate::json::JsonValue;
use crate::text::str_eq;

verus! {

/// A semantic command for the application command handler.
#[derive(Debug, Clone, Copy, PartialEq, Eq, Structural)]
pub enum Message {
    Next,
    PlayPause,
    ToggleStar,
}

/// Whether each mapped key is currently held down, for UI highlighting.
#[derive(Debug, Clone, Copy, PartialEq, Eq, Structural)]
pub struct KeyState {
    pub next: bool,
    pub play_pause: bool,
    pub toggle_star: bool,
}

impl Default for KeyState {
    /// Every key starts released.
    fn default() -> (r: KeyState)
        ensures
            r == (KeyState { next: false, play_pause: false, toggle_star: false }),
    {
        KeyState { next: false, play_pause: false, toggle_star: false }
    }
}

/// One decoded key transition: was the key pressed or released, and its
/// raw label.
#[derive(Debug, PartialEq, Eq)]
pub struct KeyEvent {
    pub pressed: bool,
    pub key: String,
}

/// What a raw `{pressed, key}` payload decodes to: the two fields, if the
/// payload is an object carrying a boolean `pressed` and a string `key`.
pub open spec fn spec_decode_event(v: JsonValue) -> Option<(bool, Seq<char>)> {
    match (v.spec_get("pressed"@), v.spec_get("key"@)) {
        (Some(JsonValue::Bool(p)), Some(JsonValue::Text(k))) => Some((p, k@)),
        _ => None,
    }
}

/// Decodes a raw key event payload. A payload of any other shape (missing
/// field, wrong type, not an object) yields `None`, to be dropped by the
/// caller without further effect.
pub fn decode_event(v: &JsonValue) -> (r: Option<KeyEvent>)
    ensures
        match r {
            Some(e) => spec_decode_event(*v) == Some((e.pressed, e.key@)),
            None => spec_decode_event(*v) is None,
        },
{
    let pressed = match v.get("pressed") {
        Some(JsonValue::Bool(p)) => *p,
        _ => {
            return None;
        },
    };
    let key = match v.get("key") {
        Some(JsonValue::Text(k)) => k.clone(),
        _ => {
            return None;
        },
    };
    Some(KeyEvent { pressed, key })
}

/// The key-held state after one transition: a mapped key records the new
/// pressed flag, anything else leaves the state untouched.
pub open spec fn spec_step(s: KeyState, pressed: bool, key: Seq<char>) -> KeyState {
    if key == "l"@ {
        KeyState { next: pressed, ..s }
    } else if key == " "@ {
        KeyState { play_pause: pressed, ..s }
    } else if key == "Enter"@ {
        KeyState { toggle_star: pressed, ..s }
    } else {
        s
    }
}

/// The command one transition emits: only a mapped key, only on a press,
/// and only when that key was not already held.
pub open spec fn spec_emit(s: KeyState, pressed: bool, key: Seq<char>) -> Option<Message> {
    if key == "l"@ && pressed && !s.next {
        Some(Message::Next)
    } else if key == " "@ && pressed && !s.play_pause {
        Some(Message::PlayPause)
    } else if key == "Enter"@ && pressed && !s.toggle_star {
        Some(Message::ToggleStar)
    } else {
        None
    }
}

/// The three mapped key labels are pairwise distinct.
proof fn lemma_key_labels_distinct()
    ensures
        "l"@ != " "@,
        "l"@ != "Enter"@,
        " "@ != "Enter"@,
{
    reveal_strlit("l");
    reveal_strlit(" ");
    reveal_strlit("Enter");
    assert("l"@[0] == 'l');
    assert(" "@[0] == ' ');
    assert("l"@.len() == 1);
    assert("Enter"@.len() == 5);
}

/// Feeds one key transition through the dispatcher: updates the held state
/// and returns the command to forward, if any.
pub fn dispatch(state: &mut KeyState, event: &KeyEvent) -> (cmd: Option<Message>)
    ensures
        *final(state) == spec_step(*old(state), event.pressed, event.key@),
        cmd == spec_emit(*old(state), event.pressed, event.key@),
{
    proof {
        lemma_key_labels_distinct();
    }
    if str_eq(event.key.as_str(), "l") {
        let emit = event.pressed && !state.next;
        state.next = event.pressed;
        if emit {
            Some(Message::Next)
        } else {
            None
        }
    } else if str_eq(event.key.as_str(), " ") {
        let emit = event.pressed && !state.play_pause;
        state.play_pause = event.pressed;
        if emit {
            Some(Message::PlayPause)
        } else {
            None
        }
    } else if str_eq(event.key.as_str(), "Enter") {
        let emit = event.pressed && !state.toggle_star;
        state.toggle_star = event.pressed;
        if emit {
            Some(Message::ToggleStar)
        } else {
            None
        }
    } else {
        None
    }
}

/// The commands an ordered sequence of transitions emits, in the order of
/// the qualifying presses; no reordering, no batching.
pub open spec fn spec_commands(s: KeyState, events: Seq<(bool, Seq<char>)>) -> Seq<Message>
    decreases events.len(),
{
    if events.len() == 0 {
        Seq::empty()
    } else {
        let head = events.first();
        let emitted = match spec_emit(s, head.0, head.1) {
            Some(m) => seq![m],
            None => Seq::<Message>::empty(),
        };
        emitted + spec_commands(spec_step(s, head.0, head.1), events.drop_first())
    }
}

/// The key-held state after an ordered sequence of transitions.
pub open spec fn spec_state_after(s: KeyState, events: Seq<(bool, Seq<char>)>) -> KeyState
    decreases events.len(),
{
    if events.len() == 0 {
        s
    } else {
        spec_step(spec_state_after(s, events.drop_last()), events.last().0, events.last().1)
    }
}

/// The view of a decoded event: its pressed flag and key label.
pub open spec fn event_view(e: KeyEvent) -> (bool, Seq<char>) {
    (e.pressed, e.key@)
}

/// Feeds a whole sequence of transitions through the dispatcher. The
/// commands come back in emission order, matching the order of the
/// qualifying presses.
pub fn dispatch_all(state: &mut KeyState, events: &Vec<KeyEvent>) -> (cmds: Vec<Message>)
    ensures
        cmds@ == spec_commands(*old(state), events@.map_values(|e: KeyEvent| event_view(e))),
        *final(state) == spec_state_after(
            *old(state),
            events@.map_values(|e: KeyEvent| event_view(e)),
        ),
{
    let ghost evs = events@.map_values(|e: KeyEvent| event_view(e));
    let mut cmds: Vec<Message> = Vec::new();
    let n = events.len();
    proof {
        assert(evs.skip(0) == evs);
        assert(evs.take(0) == Seq::<(bool, Seq<char>)>::empty());
    }
    for i in 0..n
        invariant
            n == events@.len(),
            evs == events@.map_values(|e: KeyEvent| event_view(e)),
            evs.len() == n,
            cmds@ + spec_commands(*state, evs.skip(i as int)) == spec_commands(*old(state), evs),
            *state == spec_state_after(*old(state), evs.take(i as int)),
    {
        let ghost pre = *state;
        let cmd = dispatch(state, &events[i]);
        proof {
            assert(evs[i as int] == event_view(events@[i as int]));
            assert(evs.skip(i as int).first() == evs[i as int]);
            assert(evs.skip(i as int).drop_first() == evs.skip(i + 1));
            assert(evs.take(i + 1).drop_last() == evs.take(i as int));
            assert(evs.take(i + 1).last() == evs[i as int]);
        }
        match cmd {
            Some(m) => cmds.push(m),
            None => (),
        }
    }
    proof {
        assert(evs.skip(n as int) == Seq::<(bool, Seq<char>)>::empty());
        assert(evs.take(n as int) == evs);
    }
    cmds
}

/// A release never emits a command.
pub proof fn lemma_no_command_on_release(s: KeyState, key: Seq<char>)
    ensures
        spec_emit(s, false, key) is None,
{
}

/// Pressing a key that is already held emits nothing: feeding the same
/// press twice in a row yields a command at most once.
pub proof fn lemma_repeat_press_suppressed(s: KeyState, key: Seq<char>)
    ensures
        spec_emit(spec_step(s, true, key), true, key) is None,
{
    lemma_key_labels_distinct();
}

/// A key outside the mapping table neither changes the held state nor
/// emits a command.
pub proof fn lemma_unmapped_key_ignored(s: KeyState, pressed: bool, key: Seq<char>)
    requires
        key != "l"@,
        key != " "@,
        key != "Enter"@,
    ensures
        spec_step(s, pressed, key) == s,
        spec_emit(s, pressed, key) is None,
{
}

} // verus!
