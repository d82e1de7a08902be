use vstd::prelude::*;
use crate::handler::outcome;
use crate::json::{body_title, entries_json, json_member_text};
use crate::route::{on_todos, segments, Method};
use crate::sanitize::cleaned;
use crate::store::{
    has_key, keys_unique, lemma_remove_entry, lemma_set_entry, map_of, remove_entry,
    Entry,
};

verus! {

/// Creating an item under an id the store does not hold, then listing: the listing
/// is the earlier items followed by the new one, whose title is the body's cleaned
/// `title`. From an empty store the listing holds exactly that one item.
pub proof fn lemma_create_then_list(
    s: Seq<Entry>,
    path: Seq<char>,
    body: Seq<u8>,
    id: Seq<char>,
    list_path: Seq<char>,
    list_body: Seq<u8>,
    unused_id: Seq<char>,
)
    requires
        keys_unique(s),
        !has_key(s, id),
        on_todos(segments(path)),
        on_todos(segments(list_path)),
        body_title(body) is Some,
    ensures
        ({
            let t = body_title(body)->0;
            let created = outcome(s, Method::Post, path, body, id);
            &&& created.1 == 200
            &&& created.0 == s.push((id, t))
            &&& keys_unique(created.0)
            &&& outcome(created.0, Method::Get, list_path, list_body, unused_id) == (
                created.0,
                200u16,
                entries_json(s.push((id, t))),
            )
            &&& s.len() == 0 ==> created.0 == seq![(id, t)]
        }),
{
    let t = body_title(body)->0;
    lemma_set_entry(s, id, t);
    if s.len() == 0 {
        assert(s.push((id, t)) =~= seq![(id, t)]);
    }
}

/// Updating an id the store holds changes only that item's title: every item keeps
/// its id and place, and the items under other ids are unchanged.
pub proof fn lemma_update_changes_only_title(
    s: Seq<Entry>,
    path: Seq<char>,
    body: Seq<u8>,
    unused_id: Seq<char>,
)
    requires
        keys_unique(s),
        on_todos(segments(path)),
        segments(path).len() > 2,
        has_key(s, segments(path)[2]),
        body_title(body) is Some,
    ensures
        ({
            let id = segments(path)[2];
            let t = body_title(body)->0;
            let updated = outcome(s, Method::Put, path, body, unused_id);
            &&& updated.1 == 200
            &&& updated.0.len() == s.len()
            &&& forall|i: int| 0 <= i < s.len() ==> updated.0[i].0 == s[i].0
            &&& forall|i: int| 0 <= i < s.len() && s[i].0 != id ==> updated.0[i] == s[i]
            &&& map_of(updated.0) == map_of(s).insert(id, t)
        }),
{
    lemma_set_entry(s, segments(path)[2], body_title(body)->0);
}

/// Deleting an id removes it from later listings; deleting it again answers 200
/// as well and leaves the store as the first deletion left it.
pub proof fn lemma_delete_twice(
    s: Seq<Entry>,
    path: Seq<char>,
    body: Seq<u8>,
    unused_id: Seq<char>,
    list_path: Seq<char>,
)
    requires
        keys_unique(s),
        on_todos(segments(path)),
        segments(path).len() > 2,
        on_todos(segments(list_path)),
    ensures
        ({
            let id = segments(path)[2];
            let first = outcome(s, Method::Delete, path, body, unused_id);
            let second = outcome(first.0, Method::Delete, path, body, unused_id);
            &&& first.1 == 200
            &&& second.1 == 200
            &&& !has_key(first.0, id)
            &&& map_of(first.0) == map_of(s).remove(id)
            &&& second.0 == first.0
            &&& outcome(first.0, Method::Get, list_path, body, unused_id).2 == entries_json(first.0)
        }),
{
    let id = segments(path)[2];
    lemma_remove_entry(s, id);
    let s2 = remove_entry(s, id);
    assert(!map_of(s2).contains_key(id));
}

/// A GET lists the items exactly when the path's second segment is `todos`,
/// whatever the first one is; any other GET is not found.
pub proof fn lemma_list_by_second_segment(s: Seq<Entry>, path: Seq<char>, body: Seq<u8>, id: Seq<char>)
    ensures
        outcome(s, Method::Get, path, body, id) == if on_todos(segments(path)) {
            (s, 200u16, entries_json(s))
        } else {
            (s, 404u16, Seq::<char>::empty())
        },
{
}

/// Creating an item and listing gives back the body's `title` text with the
/// clean-up applied exactly once.
pub proof fn lemma_title_round_trip(
    s: Seq<Entry>,
    path: Seq<char>,
    body: Seq<u8>,
    id: Seq<char>,
    raw: Seq<char>,
)
    requires
        keys_unique(s),
        on_todos(segments(path)),
        json_member_text(body, "title"@) == Some(raw),
    ensures
        ({
            let created = outcome(s, Method::Post, path, body, id).0;
            &&& map_of(created).contains_key(id)
            &&& map_of(created)[id] == cleaned(raw)
        }),
{
    lemma_set_entry(s, id, cleaned(raw));
}

} // verus!
