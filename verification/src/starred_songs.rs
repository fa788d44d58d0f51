//! Starred-song bookkeeping: the client's copy of the server-side set of
//! starred song IDs, the decision behind the toggle-star flow, and the
//! reading of `getStarred2` responses.
//!
//! The set is never patched locally: after every toggle the caller
//! refetches it whole, so the client stays consistent with the server.

use vstd::prelude::*;

use crate::Error;
use crate::json::JsonValue;
use crate::text::str_eq;

verus! {

/// A message for the starred-songs handler: toggle the star on the song
/// with this ID.
#[derive(Debug, PartialEq, Eq)]
pub enum Message {
    ToggleStar(String),
}

/// The set a sequence of ID strings denotes: membership of the character
/// sequence of any of its elements.
pub open spec fn ids_set(ids: Seq<String>) -> Set<Seq<char>> {
    Set::new(|x: Seq<char>| exists|j: int| 0 <= j < ids.len() && ids[j]@ == x)
}

/// The set of starred song IDs, as last fetched from the server. Its view
/// is the set of ID character sequences.
#[derive(Debug)]
pub struct StarredSet {
    ids: Vec<String>,
}

impl View for StarredSet {
    type V = Set<Seq<char>>;

    closed spec fn view(&self) -> Set<Seq<char>> {
        ids_set(self.ids@)
    }
}

impl StarredSet {
    /// The empty set: nothing starred.
    pub fn new() -> (s: StarredSet)
        ensures
            s@ == Set::<Seq<char>>::empty(),
    {
        let s = StarredSet { ids: Vec::new() };
        proof {
            assert(s@ =~= Set::<Seq<char>>::empty());
        }
        s
    }

    /// The set holding exactly the given IDs.
    pub fn from_ids(ids: Vec<String>) -> (s: StarredSet)
        ensures
            s@ == ids_set(ids@),
    {
        StarredSet { ids }
    }

    /// Whether the song with this ID is starred.
    pub fn contains(&self, id: &str) -> (r: bool)
        ensures
            r == self@.contains(id@),
    {
        let n = self.ids.len();
        let mut i: usize = 0;
        while i < n
            invariant
                n == self.ids@.len(),
                i <= n,
                forall|j: int| 0 <= j < i ==> self.ids@[j]@ != id@,
            decreases n - i,
        {
            if str_eq(self.ids[i].as_str(), id) {
                proof {
                    assert(self@.contains(id@));
                }
                return true;
            }
            i = i + 1;
        }
        proof {
            assert(!self@.contains(id@));
        }
        false
    }
}

/// What the server's starred set becomes when one request is performed:
/// `star` adds the ID, `unstar` removes it.
pub open spec fn star_effect(star: bool, id: Seq<char>, starred: Set<Seq<char>>) -> Set<
    Seq<char>,
> {
    if star {
        starred.insert(id)
    } else {
        starred.remove(id)
    }
}

/// What toggling a song's star means for the set: a member goes out,
/// anything else comes in.
pub open spec fn toggle_result(starred: Set<Seq<char>>, id: Seq<char>) -> Set<Seq<char>> {
    if starred.contains(id) {
        starred.remove(id)
    } else {
        starred.insert(id)
    }
}

/// The request the toggle-star flow issues: star (`true`) or unstar
/// (`false`) the song with this ID.
#[derive(Debug, PartialEq, Eq)]
pub struct StarRequest {
    pub star: bool,
    pub id: String,
}

/// Decides the request for a toggle of `song_id`: star it exactly when it
/// is not in the known starred set. Before the starred set has been
/// fetched there is nothing sound to decide, so the message is dropped
/// (`None`). Performing the returned request takes the server's set to
/// `toggle_result` of the old one.
pub fn toggle_star_request(starred: &Option<StarredSet>, song_id: &String) -> (r: Option<
    StarRequest,
>)
    ensures
        match r {
            Some(req) => {
                &&& starred matches Some(s)
                &&& req.star == !s@.contains(song_id@)
                &&& req.id@ == song_id@
                &&& star_effect(req.star, song_id@, s@) == toggle_result(s@, song_id@)
            },
            None => starred is None,
        },
{
    match starred {
        Some(s) => {
            let star = !s.contains(song_id.as_str());
            Some(StarRequest { star, id: song_id.clone() })
        },
        None => None,
    }
}

/// The endpoint a star request goes to: `star` to add, `unstar` to remove.
pub fn star_endpoint(star: bool) -> (r: &'static str)
    ensures
        r@ == if star {
            "star"@
        } else {
            "unstar"@
        },
{
    if star {
        "star"
    } else {
        "unstar"
    }
}

/// The label of the star toggle button for this song: what pressing it
/// would do to the song's star.
pub fn star_button_label(starred: &StarredSet, song_id: &str) -> (r: &'static str)
    ensures
        r@ == if starred@.contains(song_id@) {
            "unlike"@
        } else {
            "like"@
        },
{
    if starred.contains(song_id) {
        "unlike"
    } else {
        "like"
    }
}

/// The song entries of a `getStarred2` response. An envelope without the
/// array reads as empty: the server omits `song` when nothing is starred.
pub open spec fn spec_starred_entries(v: JsonValue) -> Seq<JsonValue> {
    match v.spec_get("subsonic-response"@) {
        Some(resp) => match resp.spec_get("starred2"@) {
            Some(st) => match st.spec_get("song"@) {
                Some(songs) => match songs.spec_items() {
                    Some(items) => items,
                    None => Seq::empty(),
                },
                None => Seq::empty(),
            },
            None => Seq::empty(),
        },
        None => Seq::empty(),
    }
}

/// The ID of one song entry: its `id` field, if that is a string.
pub open spec fn spec_song_id(v: JsonValue) -> Option<Seq<char>> {
    match v.spec_get("id"@) {
        Some(id) => id.spec_text(),
        None => None,
    }
}

/// The starred IDs of a response: one per song entry, provided every entry
/// carries a string ID; otherwise nothing.
pub open spec fn spec_starred_ids(v: JsonValue) -> Option<Seq<Seq<char>>> {
    let entries = spec_starred_entries(v);
    if forall|j: int| 0 <= j < entries.len() ==> (#[trigger] spec_song_id(entries[j])) is Some {
        Some(entries.map_values(|e: JsonValue| spec_song_id(e).unwrap()))
    } else {
        None
    }
}

/// Reads the set of starred song IDs out of a `getStarred2` response.
/// A song entry without a string ID is a `Deserialize` error; an envelope
/// without the song array is the empty set.
pub fn starred_song_ids(response: &JsonValue) -> (r: Result<StarredSet, Error>)
    ensures
        match r {
            Ok(s) => {
                &&& spec_starred_ids(*response) matches Some(ids)
                &&& forall|x: Seq<char>| s@.contains(x) <==> spec_starred_ids(
                    *response,
                ).unwrap().contains(x)
            },
            Err(e) => {
                &&& spec_starred_ids(*response) is None
                &&& e matches Error::Deserialize(_)
            },
        },
{
    let entries_opt: Option<&Vec<JsonValue>> = match response.get("subsonic-response") {
        Some(resp) => match resp.get("starred2") {
            Some(st) => match st.get("song") {
                Some(songs) => songs.as_array(),
                None => None,
            },
            None => None,
        },
        None => None,
    };
    match entries_opt {
        None => {
            let s = StarredSet::new();
            proof {
                assert(spec_starred_entries(*response) == Seq::<JsonValue>::empty());
                assert(spec_starred_ids(*response) == Some(Seq::<Seq<char>>::empty()));
            }
            Ok(s)
        },
        Some(entries) => {
            let n = entries.len();
            let mut ids: Vec<String> = Vec::new();
            let mut i: usize = 0;
            while i < n
                invariant
                    n == entries@.len(),
                    i <= n,
                    entries@ == spec_starred_entries(*response),
                    ids@.len() == i,
                    forall|j: int| 0 <= j < i ==> (#[trigger] spec_song_id(entries@[j]))
                        == Some(ids@[j]@),
                decreases n - i,
            {
                let id = match entries[i].get("id") {
                    Some(field) => match field.as_text() {
                        Some(text) => text.clone(),
                        None => {
                            proof {
                                assert(spec_song_id(entries@[i as int]) is None);
                            }
                            return Err(
                                Error::Deserialize(String::from_str("song ID was not a string")),
                            );
                        },
                    },
                    None => {
                        proof {
                            assert(spec_song_id(entries@[i as int]) is None);
                        }
                        return Err(
                            Error::Deserialize(String::from_str("song ID was not a string")),
                        );
                    },
                };
                ids.push(id);
                i = i + 1;
            }
            let s = StarredSet::from_ids(ids);
            proof {
                let spec_ids = spec_starred_ids(*response).unwrap();
                assert(spec_ids.len() == n);
                assert(forall|j: int| 0 <= j < n ==> #[trigger] spec_ids[j] == ids@[j]@);
                assert forall|x: Seq<char>| s@.contains(x) implies spec_ids.contains(x) by {
                    let j = choose|j: int| 0 <= j < ids@.len() && ids@[j]@ == x;
                    assert(spec_ids[j] == x);
                }
                assert forall|x: Seq<char>| spec_ids.contains(x) implies s@.contains(x) by {
                    let j = choose|j: int| 0 <= j < spec_ids.len() && spec_ids[j] == x;
                    assert(0 <= j < ids@.len() && ids@[j]@ == x);
                }
            }
            Ok(s)
        },
    }
}

/// Toggling the star of the same song twice restores the starred set:
/// membership ends exactly where it began.
pub proof fn lemma_toggle_round_trip(starred: Set<Seq<char>>, id: Seq<char>)
    ensures
        toggle_result(toggle_result(starred, id), id) == starred,
{
    if starred.contains(id) {
        assert(toggle_result(toggle_result(starred, id), id) =~= starred);
    } else {
        assert(toggle_result(toggle_result(starred, id), id) =~= starred);
    }
}

/// Starring and then unstarring a song that was not yet starred restores
/// the starred set.
pub proof fn lemma_star_unstar_round_trip(starred: Set<Seq<char>>, id: Seq<char>)
    requires
        !starred.contains(id),
    ensures
        star_effect(false, id, star_effect(true, id, starred)) == starred,
{
    assert(star_effect(false, id, star_effect(true, id, starred)) =~= starred);
}

} // verus!
