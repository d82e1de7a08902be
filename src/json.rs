use vstd::prelude::*;
use vstd::string::*;
use crate::store::{Todo, Entry, entries_of};
use crate::sanitize::{cleaned, clean_string};

verus! {

/// The text of member `key` of the JSON object in `body`, written back out as
/// compact JSON; `None` when `body` is not a JSON document or has no such member.
pub uninterp spec fn json_member_text(body: Seq<u8>, key: Seq<char>) -> Option<Seq<char>>;

/// `s` written as a JSON string literal, quotes and escapes included.
pub uninterp spec fn json_quoted(s: Seq<char>) -> Seq<char>;

/// Relies on `serde_json::from_slice` into a `serde_json::Value`, `Value::get` and
/// `Value`'s `Display`: the member `key` of the document in `body`, as compact JSON text.
#[verifier::external_body]
fn member_text(body: &[u8], key: &str) -> (r: Option<String>)
    ensures
        match r {
            Some(t) => json_member_text(body@, key@) == Some(t@),
            None => json_member_text(body@, key@) is None,
        },
{
    match serde_json::from_slice::<serde_json::Value>(body) {
        Ok(v) => match v.get(key) {
            Some(m) => Some(m.to_string()),
            None => None,
        },
        Err(_) => None,
    }
}

/// Relies on `serde_json::to_string` for a `str`: its JSON string literal.
/// Writing a `str` into memory does not fail.
#[verifier::external_body]
fn quoted(s: &str) -> (r: String)
    ensures
        r@ == json_quoted(s@),
{
    serde_json::to_string(s).unwrap_or_default()
}

/// The title that a request body carries: its `title` member's text, cleaned.
pub open spec fn body_title(body: Seq<u8>) -> Option<Seq<char>> {
    match json_member_text(body, "title"@) {
        Some(t) => Some(cleaned(t)),
        None => None,
    }
}

/// Reads the title out of a request body of the form `{"title": ...}`.
pub fn request_title(body: &[u8]) -> (r: Option<String>)
    ensures
        match r {
            Some(t) => body_title(body@) == Some(t@),
            None => body_title(body@) is None,
        },
{
    match member_text(body, "title") {
        Some(t) => Some(clean_string(t.as_str())),
        None => None,
    }
}

/// One item as a JSON object.
pub open spec fn entry_json(e: Entry) -> Seq<char> {
    "{\"id\":"@ + json_quoted(e.0) + ",\"title\":"@ + json_quoted(e.1) + "}"@
}

/// The items as JSON objects separated by commas.
pub open spec fn entries_json_body(p: Seq<Entry>) -> Seq<char>
    decreases p.len(),
{
    if p.len() == 0 {
        Seq::empty()
    } else if p.len() == 1 {
        entry_json(p[0])
    } else {
        entries_json_body(p.drop_last()) + ","@ + entry_json(p.last())
    }
}

/// The items as a JSON array of `{"id": ..., "title": ...}` objects.
pub open spec fn entries_json(p: Seq<Entry>) -> Seq<char> {
    "["@ + entries_json_body(p) + "]"@
}

/// Writes the items as a JSON array of `{"id": ..., "title": ...}` objects, in order.
pub fn todos_json(items: &Vec<Todo>) -> (r: String)
    ensures
        r@ == entries_json(entries_of(items@)),
{
    let mut out = String::new();
    let mut i: usize = 0;
    let ghost p = entries_of(items@);
    while i < items.len()
        invariant
            i <= items@.len(),
            p == entries_of(items@),
            out@ == entries_json_body(p.take(i as int)),
        decreases items@.len() - i,
    {
        let ghost before = out@;
        assert(p.take(i + 1).drop_last() =~= p.take(i as int));
        if i > 0 {
            out.append(",");
        }
        out.append("{\"id\":");
        let id = quoted(items[i].id.as_str());
        out.append(id.as_str());
        out.append(",\"title\":");
        let title = quoted(items[i].title.as_str());
        out.append(title.as_str());
        out.append("}");
        proof {
            let e = p[i as int];
            if i == 0 {
                assert(before =~= Seq::<char>::empty());
                assert(p.take(1) =~= seq![e]);
                assert(out@ =~= entry_json(e));
            } else {
                assert(out@ =~= before + ","@ + entry_json(e));
            }
        }
        i = i + 1;
    }
    assert(p.take(i as int) =~= p);
    let mut r = String::new();
    r.append("[");
    r.append(out.as_str());
    r.append("]");
    r
}

} // verus!
