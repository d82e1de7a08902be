use vstd::prelude::*;
use vstd::string::*;
use crate::json::{body_title, entries_json, request_title, todos_json};
use crate::route::{on_todos, route, routes_to, segments, Method, Route};
use crate::store::{entries_of, remove_entry, set_entry, Entry, MemStore, Todo};

verus! {

/// An HTTP response: a status code and a body.
#[derive(Debug)]
pub struct Response {
    pub status: u16,
    pub body: String,
}

/// What a request asks of the store, once routed and its body read.
#[derive(Debug)]
pub enum Action {
    /// Read every item.
    List,
    /// Write `title` under `key`; `created` tells a new item from an update.
    Write { key: String, title: String, created: bool },
    /// Remove the item under `key`.
    Remove { key: String },
    /// Answer at once, without the store.
    Reply(Response),
}

/// The confirmation sent once a write or a removal is done.
pub open spec fn confirmation(a: Action) -> Seq<char> {
    match a {
        Action::Write { created, .. } => if created { "Task created"@ } else { "Task updated"@ },
        _ => "Task deleted"@,
    }
}

/// `a` is what `route` asks for, with `body` as the request body and `fresh_id`
/// as the id of an item to be created.
pub open spec fn planned(a: Action, route: Route, body: Seq<u8>, fresh_id: Seq<char>) -> bool {
    match route {
        Route::List => a is List,
        Route::Create => match body_title(body) {
            Some(t) => a matches Action::Write { key, title, created } && key@ == fresh_id
                && title@ == t && created,
            None => a matches Action::Reply(r) && r.status == 400 && r.body@.len() == 0,
        },
        Route::Update { id } => match body_title(body) {
            Some(t) => a matches Action::Write { key, title, created } && key@ == id@ && title@
                == t && !created,
            None => a matches Action::Reply(r) && r.status == 400 && r.body@.len() == 0,
        },
        Route::Delete { id } => a matches Action::Remove { key } && key@ == id@,
        Route::NotFound => a matches Action::Reply(r) && r.status == 404 && r.body@.len() == 0,
    }
}

fn empty_reply(status: u16) -> (r: Response)
    ensures
        r.status == status,
        r.body@.len() == 0,
{
    Response { status, body: String::new() }
}

/// Decides what a routed request asks of the store. A create or an update whose
/// body has no `title` member is answered 400; an unknown route, 404.
pub fn plan(route: Route, body: &[u8], fresh_id: String) -> (a: Action)
    ensures
        planned(a, route, body@, fresh_id@),
{
    match route {
        Route::List => Action::List,
        Route::Create => match request_title(body) {
            Some(title) => Action::Write { key: fresh_id, title, created: true },
            None => Action::Reply(empty_reply(400)),
        },
        Route::Update { id } => match request_title(body) {
            Some(title) => Action::Write { key: id, title, created: false },
            None => Action::Reply(empty_reply(400)),
        },
        Route::Delete { id } => Action::Remove { key: id },
        Route::NotFound => Action::Reply(empty_reply(404)),
    }
}

/// The answer to a write or a removal: 200 with its confirmation, or 500 when the store failed.
pub fn written(a: &Action, succeeded: bool) -> (r: Response)
    requires
        a is Write || a is Remove,
    ensures
        succeeded ==> r.status == 200 && r.body@ == confirmation(*a),
        !succeeded ==> r.status == 500 && r.body@.len() == 0,
{
    if !succeeded {
        return empty_reply(500);
    }
    let text = match a {
        Action::Write { created, .. } => if *created { "Task created" } else { "Task updated" },
        _ => "Task deleted",
    };
    Response { status: 200, body: text.to_owned() }
}

/// The items read from a store, one value per key; `None` when any value is missing.
pub open spec fn fetched(keys: Seq<String>, values: Seq<Option<String>>) -> Option<Seq<Entry>> {
    if forall|i: int| 0 <= i < values.len() ==> values[i] is Some {
        Some(Seq::new(keys.len(), |i: int| (keys[i]@, values[i]->0@)))
    } else {
        None
    }
}

/// The answer to a listing: 200 with the items as a JSON array, or 500 when
/// any key's value was missing or unreadable (`None`).
pub fn listed(keys: Vec<String>, values: Vec<Option<String>>) -> (r: Response)
    requires
        keys@.len() == values@.len(),
    ensures
        match fetched(keys@, values@) {
            Some(p) => r.status == 200 && r.body@ == entries_json(p),
            None => r.status == 500 && r.body@.len() == 0,
        },
{
    let mut items: Vec<Todo> = Vec::new();
    let mut i: usize = 0;
    while i < keys.len()
        invariant
            i <= keys@.len() == values@.len(),
            forall|j: int| 0 <= j < i ==> values@[j] is Some,
            entries_of(items@) == Seq::new(i as nat, |j: int| (keys@[j]@, values@[j]->0@)),
        decreases keys@.len() - i,
    {
        match &values[i] {
            Some(v) => {
                let ghost before = items@;
                let t = Todo::new(keys[i].clone(), v.clone());
                items.push(t);
                assert(entries_of(items@) =~= entries_of(before).push((t.id@, t.title@)));
                assert(entries_of(items@) =~= Seq::new(
                    (i + 1) as nat,
                    |j: int| (keys@[j]@, values@[j]->0@),
                ));
            },
            None => {
                return empty_reply(500);
            },
        }
        i = i + 1;
    }
    Response { status: 200, body: todos_json(&items) }
}

/// What a request does to a store holding `s`: the store afterwards, the status and the body.
pub open spec fn outcome(
    s: Seq<Entry>,
    method: Method,
    path: Seq<char>,
    body: Seq<u8>,
    fresh_id: Seq<char>,
) -> (Seq<Entry>, u16, Seq<char>) {
    let segs = segments(path);
    let item = on_todos(segs) && segs.len() > 2;
    if method == Method::Get && on_todos(segs) {
        (s, 200, entries_json(s))
    } else if method == Method::Post && on_todos(segs) {
        match body_title(body) {
            Some(t) => (set_entry(s, fresh_id, t), 200, "Task created"@),
            None => (s, 400, Seq::empty()),
        }
    } else if method == Method::Put && item {
        match body_title(body) {
            Some(t) => (set_entry(s, segs[2], t), 200, "Task updated"@),
            None => (s, 400, Seq::empty()),
        }
    } else if method == Method::Delete && item {
        (remove_entry(s, segs[2]), 200, "Task deleted"@)
    } else {
        (s, 404, Seq::empty())
    }
}

/// Serves one request against an in-memory store, creating an item under `fresh_id`.
pub fn respond(store: &mut MemStore, method: Method, path: &str, body: &[u8], fresh_id: String) -> (r: Response)
    requires
        old(store).well_formed(),
    ensures
        final(store).well_formed(),
        (final(store)@, r.status, r.body@) == outcome(old(store)@, method, path@, body@, fresh_id@),
{
    let rt = route(method, path);
    let a = plan(rt, body, fresh_id);
    match a {
        Action::List => {
            let items = store.list();
            Response { status: 200, body: todos_json(&items) }
        },
        Action::Reply(r) => r,
        other => {
            match &other {
                Action::Write { key, title, .. } => store.set(key.clone(), title.clone()),
                Action::Remove { key } => store.delete(key.as_str()),
                _ => {},
            }
            written(&other, true)
        },
    }
}


/// A lower-case hexadecimal digit.
pub open spec fn is_lower_hex(c: char) -> bool {
    ('0' <= c && c <= '9') || ('a' <= c && c <= 'f')
}

/// Text in the hyphenated form of a UUID: 8-4-4-4-12 lower-case hex digits.
pub open spec fn uuid_text(s: Seq<char>) -> bool {
    &&& s.len() == 36
    &&& forall|i: int|
        0 <= i < 36 ==> if i == 8 || i == 13 || i == 18 || i == 23 {
            s[i] == '-'
        } else {
            is_lower_hex(#[trigger] s[i])
        }
}

/// Relies on `uuid::Uuid::new_v4`, a random version-4 UUID, and on its `Display`,
/// which writes the hyphenated lower-case form.
#[verifier::external_body]
fn new_id() -> (r: String)
    ensures
        uuid_text(r@),
{
    uuid::Uuid::new_v4().to_string()
}

/// The request creates an item.
pub open spec fn creates(method: Method, path: Seq<char>) -> bool {
    method == Method::Post && on_todos(segments(path))
}

fn fresh_id_for(route: &Route) -> (r: String)
    ensures
        route is Create ==> uuid_text(r@),
{
    match route {
        Route::Create => new_id(),
        _ => String::new(),
    }
}

/// Decides what a routed request asks of the store, drawing a new random id for a creation.
pub fn prepare(route: Route, body: &[u8]) -> (a: Action)
    ensures
        exists|id: Seq<char>| (uuid_text(id) || !(route is Create)) && planned(a, route, body@, id),
{
    let id = fresh_id_for(&route);
    let ghost g = id@;
    let a = plan(route, body, id);
    assert((uuid_text(g) || !(route is Create)) && planned(a, route, body@, g));
    a
}

/// Serves one request against an in-memory store; a created item gets a new random id.
pub fn handle(store: &mut MemStore, method: Method, path: &str, body: &[u8]) -> (r: Response)
    requires
        old(store).well_formed(),
    ensures
        final(store).well_formed(),
        exists|id: Seq<char>|
            #![trigger outcome(old(store)@, method, path@, body@, id)]
            (uuid_text(id) || !creates(method, path@)) && (final(store)@, r.status, r.body@)
                == outcome(old(store)@, method, path@, body@, id),
{
    let rt = route(method, path);
    let id = fresh_id_for(&rt);
    let ghost g = id@;
    let r = respond(store, method, path, body, id);
    assert((uuid_text(g) || !creates(method, path@)) && (store@, r.status, r.body@) == outcome(
        old(store)@,
        method,
        path@,
        body@,
        g,
    ));
    r
}

} // verus!
