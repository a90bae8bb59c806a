//! Splitting text into lines and trimming white space, as `str::lines` and
//! `str::trim` do.

use vstd::prelude::*;
use crate::session::{first_newline, lemma_first_newline_bounds, lemma_first_newline_at};
use crate::text::{chars_of, push_char};

verus! {

/// `line` without one trailing carriage return.
pub open spec fn strip_cr(line: Seq<char>) -> Seq<char> {
    if line.len() > 0 && line.last() == '\r' { line.drop_last() } else { line }
}

/// The lines of `s`: split at each `'\n'`, a `"\r\n"` ending counting as
/// one line ending; a final line ending adds no empty line, and the empty
/// string has no lines.
pub open spec fn split_lines(s: Seq<char>) -> Seq<Seq<char>>
    decreases s.len(),
{
    if s.len() == 0 {
        Seq::empty()
    } else {
        let k = first_newline(s);
        if k >= s.len() {
            seq![s]
        } else {
            proof {
                lemma_first_newline_bounds(s);
            }
            seq![strip_cr(s.take(k))] + split_lines(s.skip(k + 1))
        }
    }
}

/// Unicode `White_Space`, the property `char::is_whitespace` tests.
pub open spec fn is_white_space(c: char) -> bool {
    let u = c as u32;
    ||| 9 <= u <= 13
    ||| u == 32
    ||| u == 0x85
    ||| u == 0xA0
    ||| u == 0x1680
    ||| 0x2000 <= u <= 0x200A
    ||| u == 0x2028
    ||| u == 0x2029
    ||| u == 0x202F
    ||| u == 0x205F
    ||| u == 0x3000
}

/// `s` without its leading white space.
pub open spec fn trim_start(s: Seq<char>) -> Seq<char>
    decreases s.len(),
{
    if s.len() > 0 && is_white_space(s[0]) { trim_start(s.drop_first()) } else { s }
}

/// `s` without its trailing white space.
pub open spec fn trim_end(s: Seq<char>) -> Seq<char>
    decreases s.len(),
{
    if s.len() > 0 && is_white_space(s.last()) { trim_end(s.drop_last()) } else { s }
}

/// `s` without leading and trailing white space.
pub open spec fn trim(s: Seq<char>) -> Seq<char> {
    trim_end(trim_start(s))
}

/// Whether `c` is white space.
pub fn white_space(c: char) -> (r: bool)
    ensures
        r == is_white_space(c),
{
    let u = c as u32;
    (9 <= u && u <= 13) || u == 32 || u == 0x85 || u == 0xA0 || u == 0x1680 || (0x2000 <= u && u <= 0x200A)
        || u == 0x2028 || u == 0x2029 || u == 0x202F || u == 0x205F || u == 0x3000
}

/// The characters `from..to` of `v` as a string.
pub fn collect_chars(v: &Vec<char>, from: usize, to: usize) -> (r: String)
    requires
        from <= to <= v@.len(),
    ensures
        r@ == v@.subrange(from as int, to as int),
{
    let mut s = String::new();
    let mut i = from;
    while i < to
        invariant
            from <= i <= to <= v@.len(),
            s@ == v@.subrange(from as int, i as int),
        decreases to - i,
    {
        push_char(&mut s, v[i]);
        assert(v@.subrange(from as int, i + 1) =~= v@.subrange(from as int, i as int).push(v@[i as int]));
        i = i + 1;
    }
    s
}

/// Index of the first `'\n'` of `v` at or after `from`, or its length.
fn next_newline(v: &Vec<char>, from: usize) -> (k: usize)
    requires
        from <= v@.len(),
    ensures
        from <= k <= v@.len(),
        first_newline(v@.skip(from as int)) == k - from,
{
    let n = v.len();
    let mut k = from;
    while k < n
        invariant
            n == v@.len(),
            from <= k <= n,
            forall|i: int| from <= i < k ==> v@[i] != '\n',
        ensures
            from <= k <= n,
            forall|i: int| from <= i < k ==> v@[i] != '\n',
            k < n ==> v@[k as int] == '\n',
        decreases n - k,
    {
        if v[k] == '\n' {
            break;
        }
        k = k + 1;
    }
    proof {
        let s = v@.skip(from as int);
        assert forall|i: int| 0 <= i < k - from implies s[i] != '\n' by {
            assert(s[i] == v@[from + i]);
        }
        if k < n {
            assert(s[k - from] == v@[k as int]);
        }
        lemma_first_newline_at(s, k - from);
    }
    k
}

/// The words of `s`: its maximal runs of characters that are not white
/// space, in order, as `str::split_whitespace` yields them.
pub open spec fn words(s: Seq<char>) -> Seq<Seq<char>>
    decreases s.len(),
{
    if s.len() == 0 {
        Seq::empty()
    } else {
        let w = words(s.drop_last());
        let c = s.last();
        if is_white_space(c) {
            w
        } else if s.len() >= 2 && !is_white_space(s[s.len() - 2]) {
            w.drop_last().push(w.last().push(c))
        } else {
            w.push(seq![c])
        }
    }
}

/// The words of `s`, split at white space.
pub fn split_words(s: &str) -> (r: Vec<String>)
    ensures
        lines_view(r@) == words(s@),
{
    let cs = crate::text::chars_of(s);
    let n = cs.len();
    let mut out: Vec<String> = Vec::new();
    let mut cur = String::new();
    let mut in_word = false;
    let mut i: usize = 0;
    while i < n
        invariant
            cs@ == s@,
            n == cs@.len(),
            i <= n,
            in_word <==> (i > 0 && !is_white_space(s@[i - 1])),
            !in_word ==> cur@.len() == 0,
            in_word ==> lines_view(out@).push(cur@) == words(s@.take(i as int)),
            !in_word ==> lines_view(out@) == words(s@.take(i as int)),
        decreases n - i,
    {
        let c = cs[i];
        let ghost pre = s@.take(i as int);
        let ghost post = s@.take(i as int + 1);
        proof {
            assert(post.drop_last() =~= pre);
            assert(post.last() == c);
            if i > 0 {
                assert(post[post.len() - 2] == s@[i - 1]);
            }
        }
        if white_space(c) {
            if in_word {
                let ghost before = out@;
                let w = cur;
                out.push(w);
                cur = String::new();
                proof {
                    assert(lines_view(out@) =~= lines_view(before).push(w@));
                }
                in_word = false;
            }
        } else {
            if in_word {
                let ghost before = lines_view(out@);
                let ghost old_cur = cur@;
                crate::text::push_char(&mut cur, c);
                proof {
                    let w = words(pre);
                    assert(w == before.push(old_cur));
                    assert(w.drop_last() =~= before);
                    assert(w.last() == old_cur);
                    assert(before.push(cur@) =~= w.drop_last().push(w.last().push(c)));
                }
            } else {
                crate::text::push_char(&mut cur, c);
                proof {
                    assert(cur@ =~= seq![c]);
                }
                in_word = true;
            }
        }
        i = i + 1;
    }
    if in_word {
        let ghost before = out@;
        let ghost last = cur@;
        out.push(cur);
        proof {
            assert(lines_view(out@) =~= lines_view(before).push(last));
        }
    }
    assert(s@.take(n as int) =~= s@);
    out
}

pub open spec fn lines_view(ls: Seq<String>) -> Seq<Seq<char>> {
    ls.map_values(|l: String| l@)
}

/// The lines of `s`, as `str::lines` yields them.
pub fn lines_of(s: &str) -> (r: Vec<String>)
    ensures
        lines_view(r@) == split_lines(s@),
{
    let v = chars_of(s);
    let n = v.len();
    let mut out: Vec<String> = Vec::new();
    let mut pos: usize = 0;
    assert(v@.skip(0) =~= v@);
    assert(lines_view(out@) =~= Seq::<Seq<char>>::empty());
    assert(lines_view(out@) + split_lines(v@.skip(0)) =~= split_lines(v@));
    while pos < n
        invariant
            n == v@.len(),
            v@ == s@,
            pos <= n,
            lines_view(out@) + split_lines(v@.skip(pos as int)) == split_lines(v@),
        decreases n - pos,
    {
        let ghost rest = v@.skip(pos as int);
        let ghost before = lines_view(out@);
        let k = next_newline(&v, pos);
        if k >= n {
            let line = collect_chars(&v, pos, n);
            assert(line@ =~= rest);
            out.push(line);
            assert(lines_view(out@) =~= before.push(rest));
            assert(v@.skip(n as int) =~= Seq::<char>::empty());
            assert(lines_view(out@) + split_lines(v@.skip(n as int)) =~= before + split_lines(rest));
            pos = n;
        } else {
            let end = if k > pos && v[k - 1] == '\r' { k - 1 } else { k };
            let line = collect_chars(&v, pos, end);
            assert(rest.take(k - pos) =~= v@.subrange(pos as int, k as int));
            assert(line@ =~= strip_cr(rest.take(k - pos)));
            out.push(line);
            assert(rest.skip(k - pos + 1) =~= v@.skip(k + 1));
            assert(lines_view(out@) =~= before.push(strip_cr(rest.take(k - pos))));
            assert(lines_view(out@) + split_lines(v@.skip(k + 1)) =~= before + split_lines(rest));
            pos = k + 1;
        }
    }
    assert(v@.skip(pos as int) =~= Seq::<char>::empty());
    assert(lines_view(out@) =~= lines_view(out@) + split_lines(v@.skip(pos as int)));
    out
}

proof fn lemma_trim_start_step(v: Seq<char>, i: int, to: int)
    requires
        0 <= i < to <= v.len(),
        is_white_space(v[i]),
    ensures
        trim_start(v.subrange(i, to)) == trim_start(v.subrange(i + 1, to)),
{
    assert(v.subrange(i, to).drop_first() =~= v.subrange(i + 1, to));
}

proof fn lemma_trim_end_step(v: Seq<char>, from: int, j: int)
    requires
        0 <= from < j <= v.len(),
        is_white_space(v[j - 1]),
    ensures
        trim_end(v.subrange(from, j)) == trim_end(v.subrange(from, j - 1)),
{
    assert(v.subrange(from, j).drop_last() =~= v.subrange(from, j - 1));
}

/// The bounds of `v[from..to]` trimmed: `trim(v[from..to]) == v[lo..hi]`.
pub fn trim_bounds(v: &Vec<char>, from: usize, to: usize) -> (r: (usize, usize))
    requires
        from <= to <= v@.len(),
    ensures
        from <= r.0 <= r.1 <= to,
        trim(v@.subrange(from as int, to as int)) == v@.subrange(r.0 as int, r.1 as int),
{
    let mut lo = from;
    while lo < to && white_space(v[lo])
        invariant
            from <= lo <= to <= v@.len(),
            trim_start(v@.subrange(from as int, to as int)) == trim_start(v@.subrange(lo as int, to as int)),
        decreases to - lo,
    {
        proof {
            lemma_trim_start_step(v@, lo as int, to as int);
        }
        lo = lo + 1;
    }
    assert(trim_start(v@.subrange(lo as int, to as int)) == v@.subrange(lo as int, to as int));
    let mut hi = to;
    while hi > lo && white_space(v[hi - 1])
        invariant
            from <= lo <= hi <= to <= v@.len(),
            trim_end(v@.subrange(lo as int, to as int)) == trim_end(v@.subrange(lo as int, hi as int)),
        decreases hi - lo,
    {
        proof {
            lemma_trim_end_step(v@, lo as int, hi as int);
        }
        hi = hi - 1;
    }
    (lo, hi)
}

} // verus!
