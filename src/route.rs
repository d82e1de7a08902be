use vstd::prelude::*;
use vstd::string::*;

verus! {

/// The HTTP methods the service tells apart.
#[derive(Clone, Copy, Debug, PartialEq, Eq, Structural)]
pub enum Method {
    Get,
    Post,
    Put,
    Delete,
    Other,
}

/// Where a request goes.
#[derive(Debug)]
pub enum Route {
    List,
    Create,
    Update { id: String },
    Delete { id: String },
    NotFound,
}

/// Length of the leading part of `s` before its first `'?'` (all of `s` when there is none).
pub open spec fn query_start(s: Seq<char>) -> nat
    decreases s.len(),
{
    if s.len() == 0 || s[0] == '?' {
        0
    } else {
        1 + query_start(s.drop_first())
    }
}

/// The path of a path-with-query: what stands before the first `'?'`.
pub open spec fn path_part(s: Seq<char>) -> Seq<char> {
    s.take(query_start(s) as int)
}

/// `s` split on every `'/'`; `n` separators give `n + 1` segments.
pub open spec fn split_slash(s: Seq<char>) -> Seq<Seq<char>>
    decreases s.len(),
{
    if s.len() == 0 {
        seq![Seq::<char>::empty()]
    } else {
        let init = split_slash(s.drop_last());
        if s.last() == '/' {
            init.push(Seq::<char>::empty())
        } else {
            init.update(init.len() - 1, init.last().push(s.last()))
        }
    }
}

/// The segments of the path part of `s`.
pub open spec fn segments(s: Seq<char>) -> Seq<Seq<char>> {
    split_slash(path_part(s))
}

/// The path addresses the todo collection: its second segment is `todos`.
pub open spec fn on_todos(segs: Seq<Seq<char>>) -> bool {
    segs.len() > 1 && segs[1] == "todos"@
}

/// The route that `method` and `path` select.
pub open spec fn routes_to(r: Route, method: Method, path: Seq<char>) -> bool {
    let segs = segments(path);
    let item = on_todos(segs) && segs.len() > 2;
    match r {
        Route::List => method == Method::Get && on_todos(segs),
        Route::Create => method == Method::Post && on_todos(segs),
        Route::Update { id } => method == Method::Put && item && id@ == segs[2],
        Route::Delete { id } => method == Method::Delete && item && id@ == segs[2],
        Route::NotFound => !(on_todos(segs) && (method == Method::Get || method == Method::Post))
            && !(item && (method == Method::Put || method == Method::Delete)),
    }
}

proof fn lemma_split_len(s: Seq<char>)
    ensures
        split_slash(s).len() >= 1,
    decreases s.len(),
{
    if s.len() > 0 {
        lemma_split_len(s.drop_last());
    }
}

proof fn lemma_query_start(s: Seq<char>, q: int)
    requires
        0 <= q <= s.len(),
        forall|j: int| 0 <= j < q ==> s[j] != '?',
        q == s.len() || s[q] == '?',
    ensures
        query_start(s) == q,
    decreases s.len(),
{
    if s.len() > 0 && s[0] != '?' {
        assert forall|j: int| 0 <= j < q - 1 implies s.drop_first()[j] != '?' by {
            assert(s[j + 1] != '?');
        }
        lemma_query_start(s.drop_first(), q - 1);
    }
}

/// Splits the path part of `path` on `'/'`.
pub fn path_segments(path: &str) -> (r: Vec<String>)
    ensures
        r@.map_values(|x: String| x@) == segments(path@),
{
    let n = path.unicode_len();
    let mut done: Vec<String> = Vec::new();
    let mut start: usize = 0;
    let mut i: usize = 0;
    let ghost s = path@;
    assert(s.take(0) =~= Seq::<char>::empty());
    assert(done@.map_values(|x: String| x@) =~= Seq::<Seq<char>>::empty());
    assert(s.subrange(0, 0) =~= Seq::<char>::empty());
    while i < n && path.get_char(i) != '?'
        invariant
            n == s.len(),
            s == path@,
            start <= i <= n,
            forall|j: int| 0 <= j < i ==> s[j] != '?',
            split_slash(s.take(i as int)) == done@.map_values(|x: String| x@).push(
                s.subrange(start as int, i as int),
            ),
        decreases n - i,
    {
        let c = path.get_char(i);
        let ghost before = done@.map_values(|x: String| x@);
        proof {
            lemma_split_len(s.take(i as int));
            assert(s.take(i + 1).drop_last() =~= s.take(i as int));
            assert(s.take(i + 1).last() == c);
        }
        if c == '/' {
            let seg = path.substring_char(start, i).to_owned();
            done.push(seg);
            start = i + 1;
            assert(done@.map_values(|x: String| x@) =~= before.push(seg@));
            assert(s.subrange(start as int, i + 1) =~= Seq::<char>::empty());
        } else {
            assert(s.subrange(start as int, i + 1) =~= s.subrange(start as int, i as int).push(c));
            assert(before.push(s.subrange(start as int, i as int)).update(
                before.len() as int,
                s.subrange(start as int, i + 1),
            ) =~= before.push(s.subrange(start as int, i + 1)));
        }
        i = i + 1;
    }
    proof {
        lemma_query_start(s, i as int);
    }
    let last = path.substring_char(start, i).to_owned();
    done.push(last);
    assert(done@.map_values(|x: String| x@) =~= segments(path@));
    done
}


/// Whether `a` and `b` hold the same characters.
pub fn same_text(a: &str, b: &str) -> (r: bool)
    ensures
        r == (a@ == b@),
{
    let n = a.unicode_len();
    if n != b.unicode_len() {
        return false;
    }
    let mut i: usize = 0;
    while i < n
        invariant
            n == a@.len() == b@.len(),
            i <= n,
            forall|j: int| 0 <= j < i ==> a@[j] == b@[j],
        decreases n - i,
    {
        if a.get_char(i) != b.get_char(i) {
            return false;
        }
        i = i + 1;
    }
    assert(a@ =~= b@);
    true
}

/// Selects the route for `method` and `path` (a path that may carry a query):
/// the second `/`-separated segment must be `todos`; PUT and DELETE also take the
/// item id from the third segment, and without one the request is not found.
pub fn route(method: Method, path: &str) -> (r: Route)
    ensures
        routes_to(r, method, path@),
{
    let segs = path_segments(path);
    let ghost views = segs@.map_values(|x: String| x@);
    assert(views.len() == segs@.len());
    let todos = segs.len() > 1 && same_text(segs[1].as_str(), "todos");
    assert(todos == on_todos(segments(path@)));
    match method {
        Method::Get if todos => Route::List,
        Method::Post if todos => Route::Create,
        Method::Put if todos && segs.len() > 2 => {
            assert(views[2] == segs@[2]@);
            Route::Update { id: segs[2].clone() }
        },
        Method::Delete if todos && segs.len() > 2 => {
            assert(views[2] == segs@[2]@);
            Route::Delete { id: segs[2].clone() }
        },
        _ => Route::NotFound,
    }
}

} // verus!
