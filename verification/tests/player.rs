//! Tests for the player-level pieces: song extraction, URLs for a song,
//! the command planner, and the offline sample list.

use subsonic_client::audio_control;
use subsonic_client::json::parse_json;
use subsonic_client::shortcuts;
use subsonic_client::starred_songs;
use subsonic_client::{
    cover_art_url, play_button_label, random_song, random_test_song, shortcut_action,
    song_stream_url, Credentials, Error, ShortcutAction, Song,
};

fn fixed_credentials() -> Credentials {
    Credentials::from_parts("alice".to_string(), "a".to_string(), "bc".to_string())
}

fn sample_song(cover: Option<&str>) -> Song {
    Song {
        id: "42".to_string(),
        cover_art: cover.map(|s| s.to_string()),
        artist: "ABBA".to_string(),
        title: "Super Trouper".to_string(),
    }
}

#[test]
fn random_song_reads_the_first_song() {
    let text = "{\"subsonic-response\":{\"randomSongs\":{\"song\":[\
                 {\"id\":\"42\",\"coverArt\":\"c42\",\"artist\":\"ABBA\",\
                  \"title\":\"Super Trouper\",\"year\":1980}]}}}";
    let v = parse_json(text).unwrap();
    let song = random_song(&v).unwrap();
    assert_eq!(song.id, "42");
    assert_eq!(song.cover_art, Some("c42".to_string()));
    assert_eq!(song.artist, "ABBA");
    assert_eq!(song.title, "Super Trouper");
}

#[test]
fn random_song_without_cover_art() {
    let text = "{\"subsonic-response\":{\"randomSongs\":{\"song\":[\
                 {\"id\":\"1\",\"artist\":\"x\",\"title\":\"y\"}]}}}";
    let v = parse_json(text).unwrap();
    let song = random_song(&v).unwrap();
    assert_eq!(song.cover_art, None);
}

#[test]
fn random_song_rejects_empty_response() {
    for text in [
        "{}",
        "{\"subsonic-response\":{\"randomSongs\":{\"song\":[]}}}",
        "{\"subsonic-response\":{\"randomSongs\":{\"song\":[{\"artist\":\"x\",\"title\":\"y\"}]}}}",
    ] {
        let v = parse_json(text).unwrap();
        match random_song(&v) {
            Err(Error::Deserialize(_)) => (),
            other => panic!("expected a deserialize error for {}, got {:?}", text, other),
        }
    }
}

#[test]
fn song_stream_url_exact() {
    let creds = fixed_credentials();
    let base = "http://box.local";
    let expected = format!(
        "http://box.local/rest/stream?u=alice&t=900150983cd24fb0d6963f7d28e17f72&s=bc\
         &v=1.16.1&c=subsonic_client&f=json&id=42"
    );
    assert_eq!(song_stream_url("42", base, &creds), expected);
}

#[test]
fn cover_art_url_needs_cover_art() {
    let creds = fixed_credentials();
    let with_cover = sample_song(Some("c42"));
    let url = cover_art_url(&with_cover, "http://box.local", &creds).unwrap();
    assert!(url.starts_with("http://box.local/rest/getCoverArt?u=alice&"));
    assert!(url.ends_with("&id=c42"));

    let without = sample_song(None);
    assert_eq!(
        cover_art_url(&without, "http://box.local", &creds),
        Err(Error::MissingCoverArt)
    );
}

#[test]
fn next_fetches_and_plays() {
    let (action, playing) = shortcut_action(shortcuts::Message::Next, false, &None);
    assert_eq!(action, ShortcutAction::FetchRandomSong);
    assert!(playing);
}

#[test]
fn play_pause_toggles_and_instructs_the_player() {
    let song = Some(Ok(sample_song(None)));
    let (action, playing) = shortcut_action(shortcuts::Message::PlayPause, false, &song);
    assert_eq!(action, ShortcutAction::Audio(audio_control::Message::Play));
    assert!(playing);
    let (action, playing) = shortcut_action(shortcuts::Message::PlayPause, true, &song);
    assert_eq!(action, ShortcutAction::Audio(audio_control::Message::Pause));
    assert!(!playing);
}

#[test]
fn toggle_star_forwards_the_current_song() {
    let song = Some(Ok(sample_song(None)));
    let (action, playing) = shortcut_action(shortcuts::Message::ToggleStar, true, &song);
    assert_eq!(
        action,
        ShortcutAction::Star(starred_songs::Message::ToggleStar("42".to_string()))
    );
    assert!(playing);
}

#[test]
fn toggle_star_without_song_touches_nothing() {
    let (action, playing) = shortcut_action(shortcuts::Message::ToggleStar, false, &None);
    assert_eq!(action, ShortcutAction::Ignore);
    assert!(!playing);

    let errored: Option<Result<Song, Error>> =
        Some(Err(Error::Network("connection refused".to_string())));
    let (action, _) = shortcut_action(shortcuts::Message::ToggleStar, false, &errored);
    assert_eq!(action, ShortcutAction::Ignore);
}

#[test]
fn play_button_label_names_the_next_action() {
    assert_eq!(play_button_label(true), "pause");
    assert_eq!(play_button_label(false), "play");
}

#[test]
fn random_test_song_comes_from_the_sample_list() {
    let ids = ["0", "2", "3", "4", "5"];
    for _ in 0..20 {
        let song = random_test_song().unwrap();
        assert!(ids.contains(&song.id.as_str()));
        assert_eq!(song.cover_art, None);
    }
}
