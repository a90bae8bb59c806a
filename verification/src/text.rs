//! Character-level string helpers shared by the editor and the renderers.

use vstd::prelude::*;

verus! {

/// The characters of an optional string.
pub open spec fn opt_view(s: Option<String>) -> Option<Seq<char>> {
    match s {
        Some(t) => Some(t@),
        None => None,
    }
}

/// Appends one character to a string.
/// Calls `String::push`; claims the string's characters grow by exactly `c`.
#[verifier::external_body]
pub fn push_char(s: &mut String, c: char)
    ensures
        final(s)@ == old(s)@.push(c),
{
    s.push(c);
}

/// The characters `from..to` of `s` as a new string.
pub fn substring(s: &String, from: usize, to: usize) -> (r: String)
    requires
        from <= to <= s@.len(),
    ensures
        r@ == s@.subrange(from as int, to as int),
{
    s.as_str().substring_char(from, to).to_owned()
}

/// Number of characters of `s`.
pub fn char_len(s: &String) -> (r: usize)
    ensures
        r == s@.len(),
{
    s.as_str().unicode_len()
}

/// `a` followed by `b`.
pub fn concat(a: &String, b: &String) -> (r: String)
    ensures
        r@ == a@ + b@,
{
    let mut out = a.clone();
    out.append(b.as_str());
    out
}

/// `s` with `c` inserted before character `at`.
pub fn insert_char_at(s: &String, at: usize, c: char) -> (r: String)
    requires
        at <= s@.len(),
    ensures
        r@ == s@.take(at as int).push(c) + s@.skip(at as int),
{
    let n = char_len(s);
    let mut out = substring(s, 0, at);
    push_char(&mut out, c);
    let tail = substring(s, at, n);
    out.append(tail.as_str());
    assert(s@.take(at as int) =~= s@.subrange(0, at as int));
    assert(s@.skip(at as int) =~= s@.subrange(at as int, n as int));
    out
}

/// `s` without the character at `at`.
pub fn remove_char_at(s: &String, at: usize) -> (r: String)
    requires
        at < s@.len(),
    ensures
        r@ == s@.take(at as int) + s@.skip(at as int + 1),
{
    let n = char_len(s);
    let mut out = substring(s, 0, at);
    let tail = substring(s, at + 1, n);
    out.append(tail.as_str());
    assert(s@.take(at as int) =~= s@.subrange(0, at as int));
    assert(s@.skip(at as int + 1) =~= s@.subrange(at + 1, n as int));
    out
}

/// The characters of `s`, in order.
pub fn chars_of(s: &str) -> (r: Vec<char>)
    ensures
        r@ == s@,
{
    broadcast use vstd::string::axiom_spec_iter;
    let mut v: Vec<char> = Vec::new();
    for c in it: s.chars()
        invariant
            v@ == it.seq().take(it.index()),
    {
        v.push(c);
    }
    assert(v@ =~= s@);
    v
}

/// A string holding exactly the given literal.
pub fn from_str(s: &str) -> (r: String)
    ensures
        r@ == s@,
{
    s.to_owned()
}

/// Whether two strings hold the same characters.
pub fn str_equal(a: &str, b: &str) -> (r: bool)
    ensures
        r == (a@ == b@),
{
    let x = a.to_owned();
    let y = b.to_owned();
    x == y
}

} // verus!
