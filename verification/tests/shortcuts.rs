//! Tests for the shortcut dispatcher: decoding, command emission, held
//! state, and ordering.

use subsonic_client::json::parse_json;
use subsonic_client::shortcuts::{decode_event, dispatch, dispatch_all, KeyEvent, KeyState, Message};

fn event(pressed: bool, key: &str) -> KeyEvent {
    KeyEvent { pressed, key: key.to_string() }
}

#[test]
fn repeated_press_emits_one_command() {
    let mut state = KeyState::default();
    let first = dispatch(&mut state, &event(true, "l"));
    let second = dispatch(&mut state, &event(true, "l"));
    assert_eq!(first, Some(Message::Next));
    assert_eq!(second, None);
    assert!(state.next);
}

#[test]
fn press_then_release_emits_one_command() {
    let mut state = KeyState::default();
    let down = dispatch(&mut state, &event(true, "l"));
    let up = dispatch(&mut state, &event(false, "l"));
    assert_eq!(down, Some(Message::Next));
    assert_eq!(up, None);
    assert!(!state.next);
}

#[test]
fn unknown_key_emits_nothing_and_keeps_state() {
    let mut state = KeyState::default();
    let cmd = dispatch(&mut state, &event(true, "x"));
    assert_eq!(cmd, None);
    assert_eq!(state, KeyState::default());
}

#[test]
fn space_and_enter_map_to_their_commands() {
    let mut state = KeyState::default();
    assert_eq!(dispatch(&mut state, &event(true, " ")), Some(Message::PlayPause));
    assert!(state.play_pause);
    assert_eq!(dispatch(&mut state, &event(true, "Enter")), Some(Message::ToggleStar));
    assert!(state.toggle_star);
}

#[test]
fn key_labels_are_case_sensitive() {
    let mut state = KeyState::default();
    assert_eq!(dispatch(&mut state, &event(true, "L")), None);
    assert_eq!(dispatch(&mut state, &event(true, "enter")), None);
    assert_eq!(state, KeyState::default());
}

#[test]
fn commands_come_out_in_press_order() {
    let mut state = KeyState::default();
    let events = vec![
        event(true, "l"),
        event(false, "l"),
        event(true, " "),
        event(true, "x"),
        event(true, "Enter"),
        event(false, " "),
    ];
    let commands = dispatch_all(&mut state, &events);
    assert_eq!(commands, vec![Message::Next, Message::PlayPause, Message::ToggleStar]);
    assert!(!state.next);
    assert!(!state.play_pause);
    assert!(state.toggle_star);
}

#[test]
fn decode_event_reads_pressed_and_key() {
    let v = parse_json("{\"pressed\":true,\"key\":\"l\"}").unwrap();
    let e = decode_event(&v).unwrap();
    assert!(e.pressed);
    assert_eq!(e.key, "l");
}

#[test]
fn decode_event_drops_payload_without_key() {
    let v = parse_json("{\"pressed\":true}").unwrap();
    assert_eq!(decode_event(&v), None);
}

#[test]
fn decode_event_drops_wrongly_shaped_payloads() {
    for text in [
        "{\"key\":\"l\"}",
        "{\"pressed\":\"yes\",\"key\":\"l\"}",
        "{\"pressed\":true,\"key\":7}",
        "[1,2,3]",
        "\"l\"",
        "null",
    ] {
        let v = parse_json(text).unwrap();
        assert_eq!(decode_event(&v), None, "payload {} should be dropped", text);
    }
}

#[test]
fn decode_event_ignores_extra_fields() {
    let v = parse_json("{\"pressed\":false,\"key\":\" \",\"repeat\":false}").unwrap();
    let e = decode_event(&v).unwrap();
    assert!(!e.pressed);
    assert_eq!(e.key, " ");
}

#[test]
fn release_rearms_the_key() {
    let mut state = KeyState::default();
    assert_eq!(dispatch(&mut state, &event(true, "l")), Some(Message::Next));
    assert_eq!(dispatch(&mut state, &event(false, "l")), None);
    assert_eq!(dispatch(&mut state, &event(true, "l")), Some(Message::Next));
}

#[test]
fn decoded_event_drives_the_dispatcher() {
    let v = parse_json("{\"pressed\":true,\"key\":\"l\"}").unwrap();
    let e = decode_event(&v).unwrap();
    let mut state = KeyState::default();
    assert_eq!(dispatch(&mut state, &e), Some(Message::Next));
    assert!(state.next);
}
