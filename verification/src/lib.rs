//! Client-side core of a Subsonic-style music streaming client: authenticated
//! request building, keyboard shortcut dispatch, and starred-song bookkeeping.

use vstd::prelude::*;

use rand::Rng;

pub mod audio_control;
mod error;
pub mod json;
pub mod net;
pub mod shortcuts;
pub mod starred_songs;
mod text;

pub use error::Error;

use json::JsonValue;
use text::is_alphanumeric_char;

verus! {

/// The identity the client presents to the server: a user name, a password,
/// and a per-process random salt that feeds the request token.
///
/// Created once at startup and never mutated; every request-building call
/// borrows it.
#[derive(Clone)]
pub struct Credentials {
    pub username: String,
    pub password: String,
    pub salt: String,
}

impl Credentials {
    /// The salt is exactly 36 ASCII letters or digits.
    pub open spec fn salt_well_formed(self) -> bool {
        self.salt@.len() == 36 && forall|i: int|
            0 <= i < self.salt@.len() ==> is_alphanumeric_char(#[trigger] self.salt@[i])
    }

    /// Fresh credentials with a newly generated salt.
    pub fn new(username: String, password: String) -> (c: Credentials)
        ensures
            c.username == username,
            c.password == password,
            c.salt_well_formed(),
    {
        let salt = random_salt();
        Credentials { username, password, salt }
    }

    /// Credentials with a caller-chosen salt, for callers that must
    /// reproduce a fixed token.
    pub fn from_parts(username: String, password: String, salt: String) -> (c: Credentials)
        ensures
            c.username == username,
            c.password == password,
            c.salt == salt,
    {
        Credentials { username, password, salt }
    }
}

/// Relies on rand's `Alphanumeric` distribution: every sampled byte is an
/// ASCII letter or digit, and exactly 36 samples are taken, whatever values
/// the generator yields.
#[verifier::external_body]
fn random_salt() -> (s: String)
    ensures
        s@.len() == 36,
        forall|i: int| 0 <= i < s@.len() ==> is_alphanumeric_char(#[trigger] s@[i]),
{
    rand::thread_rng().sample_iter(&rand::distributions::Alphanumeric).take(36).map(
        char::from,
    ).collect()
}

/// One song as the server describes it: immutable, fetched fresh, never
/// stored locally. `cover_art` is the optional ID of its cover image.
#[derive(Debug, Clone, PartialEq, Eq)]
pub struct Song {
    pub id: String,
    pub cover_art: Option<String>,
    pub artist: String,
    pub title: String,
}

/// The song a JSON song object describes: `id`, `artist` and `title` must
/// be strings; `coverArt` may be a string, `null`, or absent.
pub open spec fn spec_song_of(v: JsonValue) -> Option<Song> {
    match (v.spec_get("id"@), v.spec_get("artist"@), v.spec_get("title"@)) {
        (
            Some(JsonValue::Text(id)),
            Some(JsonValue::Text(artist)),
            Some(JsonValue::Text(title)),
        ) => match v.spec_get("coverArt"@) {
            None => Some(Song { id, cover_art: None, artist, title }),
            Some(JsonValue::Null) => Some(Song { id, cover_art: None, artist, title }),
            Some(JsonValue::Text(ca)) => Some(Song { id, cover_art: Some(ca), artist, title }),
            Some(_) => None,
        },
        _ => None,
    }
}

/// Reads one song object into a [`Song`]; `None` if a required field is
/// missing or of the wrong shape.
pub fn decode_song(v: &JsonValue) -> (r: Option<Song>)
    ensures
        r == spec_song_of(*v),
{
    let id = match v.get("id") {
        Some(JsonValue::Text(s)) => s.clone(),
        _ => {
            return None;
        },
    };
    let artist = match v.get("artist") {
        Some(JsonValue::Text(s)) => s.clone(),
        _ => {
            return None;
        },
    };
    let title = match v.get("title") {
        Some(JsonValue::Text(s)) => s.clone(),
        _ => {
            return None;
        },
    };
    let cover_art = match v.get("coverArt") {
        None => None,
        Some(JsonValue::Null) => None,
        Some(JsonValue::Text(s)) => Some(s.clone()),
        Some(_) => {
            return None;
        },
    };
    Some(Song { id, cover_art, artist, title })
}

/// The first song of a `getRandomSongs` response, if the envelope carries
/// one with the required fields.
pub open spec fn spec_random_song(v: JsonValue) -> Option<Song> {
    match v.spec_get("subsonic-response"@) {
        Some(resp) => match resp.spec_get("randomSongs"@) {
            Some(rs) => match rs.spec_get("song"@) {
                Some(songs) => match songs.spec_at(0) {
                    Some(first) => spec_song_of(first),
                    None => None,
                },
                None => None,
            },
            None => None,
        },
        None => None,
    }
}

/// Reads the song out of a `getRandomSongs` response; a response without
/// a well-formed first song is a `Deserialize` error.
pub fn random_song(response: &JsonValue) -> (r: Result<Song, Error>)
    ensures
        match r {
            Ok(song) => spec_random_song(*response) == Some(song),
            Err(e) => {
                &&& spec_random_song(*response) is None
                &&& e matches Error::Deserialize(_)
            },
        },
{
    let first = match response.get("subsonic-response") {
        Some(resp) => match resp.get("randomSongs") {
            Some(rs) => match rs.get("song") {
                Some(songs) => songs.at(0),
                None => None,
            },
            None => None,
        },
        None => None,
    };
    let song = match first {
        Some(v) => decode_song(v),
        None => None,
    };
    match song {
        Some(s) => Ok(s),
        None => Err(Error::Deserialize(String::from_str("failed to read a song"))),
    }
}

/// The URL that streams the song with this ID.
pub fn song_stream_url(id: &str, server_url: &str, credentials: &Credentials) -> (r: String)
    ensures
        r@ == net::url_of(
            server_url@,
            credentials.username@,
            credentials.password@,
            credentials.salt@,
            "stream"@,
            "&id="@ + id@,
        ),
{
    let mut extra = String::from_str("&id=");
    extra.append(id);
    net::url(server_url, credentials, "stream", extra.as_str())
}

/// The URL of a song's cover art; `MissingCoverArt` for a song without one.
pub fn cover_art_url(song: &Song, server_url: &str, credentials: &Credentials) -> (r: Result<
    String,
    Error,
>)
    ensures
        match r {
            Ok(u) => {
                &&& song.cover_art matches Some(ca)
                &&& u@ == net::url_of(
                    server_url@,
                    credentials.username@,
                    credentials.password@,
                    credentials.salt@,
                    "getCoverArt"@,
                    "&id="@ + ca@,
                )
            },
            Err(e) => {
                &&& song.cover_art is None
                &&& e == Error::MissingCoverArt
            },
        },
{
    match &song.cover_art {
        Some(ca) => {
            let mut extra = String::from_str("&id=");
            extra.append(ca.as_str());
            Ok(net::url(server_url, credentials, "getCoverArt", extra.as_str()))
        },
        None => Err(Error::MissingCoverArt),
    }
}

/// Relies on `Rng::gen_range`: the result is below the given bound,
/// whatever the generator yields.
#[verifier::external_body]
fn random_below(n: usize) -> (r: usize)
    requires
        n > 0,
    ensures
        r < n,
{
    rand::thread_rng().gen_range(0..n)
}

/// Membership in the fixed offline sample list.
pub open spec fn is_test_song(s: Song) -> bool {
    ||| (s.id@ == "0"@ && s.cover_art is None && s.artist@ == "ABBA"@ && s.title@
        == "Super Trouper"@)
    ||| (s.id@ == "2"@ && s.cover_art is None && s.artist@ == "Gorillaz"@ && s.title@ == "A1M1"@)
    ||| (s.id@ == "3"@ && s.cover_art is None && s.artist@ == "Schnitzelpower"@ && s.title@
        == "Sicko"@)
    ||| (s.id@ == "4"@ && s.cover_art is None && s.artist@ == "ABBA"@ && s.title@ == "Mamma Mia"@)
    ||| (s.id@ == "5"@ && s.cover_art is None && s.artist@ == "Röyksopp"@ && s.title@
        == "Speed King"@)
}

/// A song drawn at random from a fixed offline list, for running the
/// player without a server.
pub fn random_test_song() -> (r: Option<Song>)
    ensures
        r matches Some(s) && is_test_song(s),
{
    let mut songs: Vec<Song> = Vec::new();
    songs.push(
        Song {
            artist: String::from_str("ABBA"),
            cover_art: None,
            id: String::from_str("0"),
            title: String::from_str("Super Trouper"),
        },
    );
    songs.push(
        Song {
            artist: String::from_str("Gorillaz"),
            cover_art: None,
            id: String::from_str("2"),
            title: String::from_str("A1M1"),
        },
    );
    songs.push(
        Song {
            artist: String::from_str("Schnitzelpower"),
            cover_art: None,
            id: String::from_str("3"),
            title: String::from_str("Sicko"),
        },
    );
    songs.push(
        Song {
            artist: String::from_str("ABBA"),
            cover_art: None,
            id: String::from_str("4"),
            title: String::from_str("Mamma Mia"),
        },
    );
    songs.push(
        Song {
            artist: String::from_str("Röyksopp"),
            cover_art: None,
            id: String::from_str("5"),
            title: String::from_str("Speed King"),
        },
    );
    let i = random_below(songs.len());
    let s = songs.swap_remove(i);
    Some(s)
}

/// The label of the play/pause button: what pressing it would do.
pub fn play_button_label(playing: bool) -> (r: &'static str)
    ensures
        r@ == if playing {
            "pause"@
        } else {
            "play"@
        },
{
    if playing {
        "pause"
    } else {
        "play"
    }
}

/// What the command handler must do for one shortcut command.
#[derive(Debug, PartialEq, Eq)]
pub enum ShortcutAction {
    /// Fetch a random song, replace the current one, and start playing.
    FetchRandomSong,
    /// Tell the media player to play or pause.
    Audio(audio_control::Message),
    /// Forward a toggle-star to the starred-songs handler.
    Star(starred_songs::Message),
    /// Nothing can be done for this command in the current state.
    Ignore,
}

/// Decides what one shortcut command means in the current state: the
/// action to perform and the new playing flag.
///
/// `Next` always fetches and plays. `PlayPause` flips the playing flag and
/// instructs the player accordingly. `ToggleStar` needs a current song:
/// without one nothing is forwarded, so the network is never touched.
pub fn shortcut_action(
    msg: shortcuts::Message,
    playing: bool,
    current_song: &Option<Result<Song, Error>>,
) -> (r: (ShortcutAction, bool))
    ensures
        match msg {
            shortcuts::Message::Next => r == (ShortcutAction::FetchRandomSong, true),
            shortcuts::Message::PlayPause => {
                &&& r.0 == ShortcutAction::Audio(
                    if playing {
                        audio_control::Message::Pause
                    } else {
                        audio_control::Message::Play
                    },
                )
                &&& r.1 == !playing
            },
            shortcuts::Message::ToggleStar => {
                &&& r.1 == playing
                &&& match current_song {
                    Some(Ok(song)) => r.0 matches ShortcutAction::Star(
                        starred_songs::Message::ToggleStar(id),
                    ) && id@ == song.id@,
                    _ => r.0 == ShortcutAction::Ignore,
                }
            },
        },
{
    match msg {
        shortcuts::Message::Next => (ShortcutAction::FetchRandomSong, true),
        shortcuts::Message::PlayPause => {
            let audio = if playing {
                audio_control::Message::Pause
            } else {
                audio_control::Message::Play
            };
            (ShortcutAction::Audio(audio), !playing)
        },
        shortcuts::Message::ToggleStar => {
            match current_song {
                Some(Ok(song)) => (
                    ShortcutAction::Star(starred_songs::Message::ToggleStar(song.id.clone())),
                    playing,
                ),
                _ => (ShortcutAction::Ignore, playing),
            }
        },
    }
}

} // verus!
