//! Tests for starred-song bookkeeping: reading getStarred2 responses and
//! deciding star/unstar requests.

use subsonic_client::json::parse_json;
use subsonic_client::starred_songs::{
    star_button_label, star_endpoint, starred_song_ids, toggle_star_request, StarredSet,
};
use subsonic_client::Error;

fn set_of(ids: &[&str]) -> StarredSet {
    StarredSet::from_ids(ids.iter().map(|s| s.to_string()).collect())
}

#[test]
fn starred_song_ids_reads_the_id_list() {
    let text = "{\"subsonic-response\":{\"starred2\":{\"song\":[\
                 {\"id\":\"11\",\"title\":\"one\"},{\"id\":\"22\"}]}}}";
    let v = parse_json(text).unwrap();
    let set = starred_song_ids(&v).unwrap();
    assert!(set.contains("11"));
    assert!(set.contains("22"));
    assert!(!set.contains("33"));
}

#[test]
fn starred_song_ids_empty_without_song_array() {
    for text in [
        "{\"subsonic-response\":{\"starred2\":{}}}",
        "{\"subsonic-response\":{}}",
        "{}",
        "{\"subsonic-response\":{\"starred2\":{\"song\":{}}}}",
    ] {
        let v = parse_json(text).unwrap();
        let set = starred_song_ids(&v).unwrap();
        assert!(!set.contains("11"), "response {} should read as empty", text);
    }
}

#[test]
fn starred_song_ids_rejects_non_string_id() {
    let text = "{\"subsonic-response\":{\"starred2\":{\"song\":[{\"id\":7}]}}}";
    let v = parse_json(text).unwrap();
    match starred_song_ids(&v) {
        Err(Error::Deserialize(_)) => (),
        other => panic!("expected a deserialize error, got {:?}", other),
    }
}

#[test]
fn toggle_request_stars_what_is_not_starred() {
    let starred = Some(set_of(&["7"]));
    let req = toggle_star_request(&starred, &"8".to_string()).unwrap();
    assert!(req.star);
    assert_eq!(req.id, "8");
}

#[test]
fn toggle_request_unstars_what_is_starred() {
    let starred = Some(set_of(&["7"]));
    let req = toggle_star_request(&starred, &"7".to_string()).unwrap();
    assert!(!req.star);
    assert_eq!(req.id, "7");
}

#[test]
fn toggle_request_needs_a_fetched_set() {
    let req = toggle_star_request(&None, &"7".to_string());
    assert!(req.is_none());
}

#[test]
fn star_button_label_follows_membership() {
    let starred = set_of(&["7"]);
    assert_eq!(star_button_label(&starred, "7"), "unlike");
    assert_eq!(star_button_label(&starred, "8"), "like");
}

#[test]
fn star_endpoint_names() {
    assert_eq!(star_endpoint(true), "star");
    assert_eq!(star_endpoint(false), "unstar");
}

#[test]
fn star_then_unstar_restores_membership() {
    // The song is not starred. Toggling stars it; the server's set then
    // holds it, so toggling again unstars it: membership is back where it
    // began.
    let song = "9".to_string();
    let before = Some(set_of(&["1", "2"]));
    let first = toggle_star_request(&before, &song).unwrap();
    assert!(first.star);

    // What the server's set becomes after performing the first request.
    let after_star = Some(set_of(&["1", "2", "9"]));
    let second = toggle_star_request(&after_star, &song).unwrap();
    assert!(!second.star);

    // Performing the second request removes the ID again.
    let after_unstar = set_of(&["1", "2"]);
    assert!(!after_unstar.contains("9"));
    assert!(after_unstar.contains("1"));
    assert!(after_unstar.contains("2"));
}
