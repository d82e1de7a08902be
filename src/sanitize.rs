use vstd::prelude::*;
use vstd::string::*;

verus! {

/// `s` with one leading and one trailing `c` removed, where present.
pub open spec fn strip_once(s: Seq<char>, c: char) -> Seq<char> {
    let a = if s.len() > 0 && s[0] == c { s.drop_first() } else { s };
    if a.len() > 0 && a.last() == c { a.drop_last() } else { a }
}

/// A field's text with the quoting left by re-stringifying it taken off:
/// first a backslash from each end, then a double quote from each end.
pub open spec fn cleaned(s: Seq<char>) -> Seq<char> {
    strip_once(strip_once(s, '\\'), '"')
}

fn strip_char(s: &str, c: char) -> (r: String)
    ensures
        r@ == strip_once(s@, c),
{
    let n = s.unicode_len();
    let mut from: usize = 0;
    let mut to: usize = n;
    if n > 0 && s.get_char(0) == c {
        from = 1;
    }
    if to > from && s.get_char(to - 1) == c {
        to = to - 1;
    }
    let r = s.substring_char(from, to).to_owned();
    assert(r@ =~= strip_once(s@, c));
    r
}

/// Removes at most one backslash, then at most one double quote, from each end of `input`.
pub fn clean_string(input: &str) -> (r: String)
    ensures
        r@ == cleaned(input@),
{
    let a = strip_char(input, '\\');
    strip_char(a.as_str(), '"')
}

} // verus!
