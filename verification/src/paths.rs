//! File names, stems and extensions of `/`-separated paths, read the way
//! `std::path::Path` reads them: the last component that is neither empty
//! nor `.`; none when that component is `..` or there is none; the stem is
//! the name before its last dot, unless that dot starts the name.

use vstd::prelude::*;
use crate::lines::collect_chars;
use crate::text::{chars_of, opt_view};

verus! {

/// The `/`-separated segments of `p`, empty ones included.
pub open spec fn segments(p: Seq<char>) -> Seq<Seq<char>>
    decreases p.len(),
{
    if p.len() == 0 {
        seq![Seq::empty()]
    } else {
        let s = segments(p.drop_last());
        if p.last() == '/' {
            s.push(Seq::empty())
        } else {
            s.drop_last().push(s.last().push(p.last()))
        }
    }
}

/// A segment that names no component: empty, or `.`.
pub open spec fn skipped(s: Seq<char>) -> bool {
    s.len() == 0 || s == seq!['.']
}

/// The last named component of these segments, when it is a normal one.
pub open spec fn last_normal(segs: Seq<Seq<char>>) -> Option<Seq<char>>
    decreases segs.len(),
{
    if segs.len() == 0 {
        None
    } else if skipped(segs.last()) {
        last_normal(segs.drop_last())
    } else if segs.last() == seq!['.', '.'] {
        None
    } else {
        Some(segs.last())
    }
}

/// The file name of a path, as `Path::file_name` gives it.
pub open spec fn path_file_name(p: Seq<char>) -> Option<Seq<char>> {
    last_normal(segments(p))
}

/// Index of the last `.` of `n`, or -1.
pub open spec fn last_dot(n: Seq<char>) -> int
    decreases n.len(),
{
    if n.len() == 0 {
        -1
    } else if n.last() == '.' {
        n.len() - 1
    } else {
        last_dot(n.drop_last())
    }
}

/// The stem of a file name: the name before its last dot, or the whole
/// name when it has no dot or its only dot starts it.
pub open spec fn name_stem(n: Seq<char>) -> Seq<char> {
    if last_dot(n) <= 0 { n } else { n.take(last_dot(n)) }
}

/// The stem of a path, as `Path::file_stem` gives it.
pub open spec fn path_stem(p: Seq<char>) -> Option<Seq<char>> {
    match path_file_name(p) {
        Some(n) => Some(name_stem(n)),
        None => None,
    }
}

/// The extension of a path, as `Path::extension` gives it.
pub open spec fn path_extension(p: Seq<char>) -> Option<Seq<char>> {
    match path_file_name(p) {
        Some(n) => if last_dot(n) <= 0 { None } else { Some(n.skip(last_dot(n) + 1)) },
        None => None,
    }
}

proof fn lemma_last_dot_bounds(n: Seq<char>)
    ensures
        -1 <= last_dot(n) < n.len(),
        last_dot(n) >= 0 ==> n[last_dot(n)] == '.',
        forall|j: int| last_dot(n) < j < n.len() ==> n[j] != '.',
    decreases n.len(),
{
    if n.len() > 0 {
        let m = n.drop_last();
        lemma_last_dot_bounds(m);
        if n.last() != '.' {
            assert forall|j: int| last_dot(n) < j < n.len() implies n[j] != '.' by {
                if j < n.len() - 1 {
                    assert(m[j] == n[j]);
                }
            }
            if last_dot(n) >= 0 {
                assert(m[last_dot(n)] == n[last_dot(n)]);
            }
        }
    }
}

/// Index of the last `.` of `v[0..n)`, or `n` when there is none.
fn find_last_dot(v: &Vec<char>, n: usize) -> (r: usize)
    requires
        n <= v@.len(),
    ensures
        r <= n,
        r == n <==> last_dot(v@.take(n as int)) == -1,
        r < n ==> r as int == last_dot(v@.take(n as int)),
{
    let mut i = n;
    while i > 0
        invariant
            i <= n <= v@.len(),
            last_dot(v@.take(n as int)) == last_dot(v@.take(i as int)),
        decreases i,
    {
        assert(v@.take(i as int).drop_last() =~= v@.take(i - 1));
        if v[i - 1] == '.' {
            return i - 1;
        }
        i = i - 1;
    }
    n
}

/// Where the last segment of `v[0..end)` starts: just after its last `/`,
/// or 0.
fn segment_start(v: &Vec<char>, end: usize) -> (r: usize)
    requires
        end <= v@.len(),
    ensures
        r <= end,
        r > 0 ==> v@[r - 1] == '/',
        forall|j: int| r <= j < end ==> v@[j] != '/',
{
    let mut i = end;
    while i > 0
        invariant
            i <= end <= v@.len(),
            forall|j: int| i <= j < end ==> v@[j] != '/',
        decreases i,
    {
        if v[i - 1] == '/' {
            return i;
        }
        i = i - 1;
    }
    0
}

/// The segments of `p.take(k)` when `p[k]` is a `/`: the segments before it.
proof fn lemma_segments_split(p: Seq<char>, k: int)
    requires
        0 <= k < p.len(),
        p[k] == '/',
        forall|j: int| k < j < p.len() ==> p[j] != '/',
    ensures
        segments(p) == segments(p.take(k)).push(p.subrange(k + 1, p.len() as int)),
    decreases p.len(),
{
    if k == p.len() - 1 {
        assert(p.drop_last() =~= p.take(k));
        assert(p.subrange(k + 1, p.len() as int) =~= Seq::<char>::empty());
    } else {
        let q = p.drop_last();
        lemma_segments_split(q, k);
        assert(q.take(k) =~= p.take(k));
        assert(p.subrange(k + 1, p.len() as int) =~= q.subrange(k + 1, q.len() as int).push(p.last()));
    }
}

/// A path with no `/` is one segment.
proof fn lemma_segments_single(p: Seq<char>)
    requires
        forall|j: int| 0 <= j < p.len() ==> p[j] != '/',
    ensures
        segments(p) == seq![p],
    decreases p.len(),
{
    if p.len() > 0 {
        let q = p.drop_last();
        assert forall|j: int| 0 <= j < q.len() implies q[j] != '/' by {
            assert(q[j] == p[j]);
        }
        lemma_segments_single(q);
        assert(p[p.len() - 1] != '/');
        assert(seq![q].drop_last() =~= Seq::<Seq<char>>::empty());
        assert(q.push(p.last()) =~= p);
        assert(Seq::<Seq<char>>::empty().push(p) =~= seq![p]);
    } else {
        assert(p =~= Seq::<char>::empty());
    }
}

/// The characters `v[from..to)` as a string.
fn segment_text(v: &Vec<char>, from: usize, to: usize) -> (r: String)
    requires
        from <= to <= v@.len(),
    ensures
        r@ == v@.subrange(from as int, to as int),
{
    collect_chars(v, from, to)
}

/// Whether `v[from..to)` is empty or `.`.
fn is_skipped(v: &Vec<char>, from: usize, to: usize) -> (r: bool)
    requires
        from <= to <= v@.len(),
    ensures
        r == skipped(v@.subrange(from as int, to as int)),
{
    let ghost s = v@.subrange(from as int, to as int);
    if from == to {
        assert(s.len() == 0);
        true
    } else if to - from == 1 && v[from] == '.' {
        assert(s =~= seq!['.']);
        true
    } else {
        assert(s.len() != 0);
        if to - from == 1 {
            assert(s[0] != '.');
        } else {
            assert(s.len() != 1);
        }
        false
    }
}

/// Whether `v[from..to)` is `..`.
fn is_parent(v: &Vec<char>, from: usize, to: usize) -> (r: bool)
    requires
        from <= to <= v@.len(),
    ensures
        r == (v@.subrange(from as int, to as int) == seq!['.', '.']),
{
    let ghost s = v@.subrange(from as int, to as int);
    if to - from == 2 && v[from] == '.' && v[from + 1] == '.' {
        assert(s =~= seq!['.', '.']);
        true
    } else {
        if to - from == 2 {
            assert(s[0] != '.' || s[1] != '.');
        } else {
            assert(s.len() != 2);
        }
        false
    }
}

/// The file name of a path: its last component that is neither empty nor
/// `.`, when that is not `..`.
pub fn file_name_of(path: &String) -> (r: Option<String>)
    ensures
        opt_view(r) == path_file_name(path@),
{
    let v = chars_of(path.as_str());
    let mut end = v.len();
    assert(v@.take(end as int) =~= v@);
    loop
        invariant
            v@ == path@,
            end <= v@.len(),
            path_file_name(path@) == last_normal(segments(v@.take(end as int))),
        decreases end,
    {
        let start = segment_start(&v, end);
        let ghost p = v@.take(end as int);
        let ghost seg = v@.subrange(start as int, end as int);
        let ghost before = v@.take(start - 1);
        proof {
            assert forall|j: int| start <= j < p.len() implies p[j] != '/' by {
                assert(p[j] == v@[j]);
            }
            assert(p.subrange(start as int, end as int) =~= seg);
            if start > 0 {
                assert(p[start - 1] == v@[start - 1]);
                lemma_segments_split(p, start - 1);
                assert(p.take(start - 1) =~= before);
                assert(segments(p) == segments(before).push(seg));
                assert(segments(p).drop_last() =~= segments(before));
            } else {
                lemma_segments_single(p);
                assert(p =~= seg);
                assert(segments(p).drop_last() =~= Seq::<Seq<char>>::empty());
            }
            assert(segments(p).last() == seg);
        }
        if is_skipped(&v, start, end) {
            if start == 0 {
                proof {
                    assert(segments(p).len() > 0);
                    assert(last_normal(segments(p)) == last_normal(segments(p).drop_last()));
                    assert(last_normal(Seq::<Seq<char>>::empty()) is None);
                }
                return None;
            }
            end = start - 1;
        } else if is_parent(&v, start, end) {
            return None;
        } else {
            return Some(segment_text(&v, start, end));
        }
    }
}

/// The stem of a path's file name.
pub fn file_stem_of(path: &String) -> (r: Option<String>)
    ensures
        opt_view(r) == path_stem(path@),
{
    match file_name_of(path) {
        None => None,
        Some(name) => {
            let v = chars_of(name.as_str());
            let d = find_last_dot(&v, v.len());
            proof {
                assert(v@.take(v@.len() as int) =~= v@);
                lemma_last_dot_bounds(v@);
            }
            if d == v.len() || d == 0 {
                Some(name)
            } else {
                Some(collect_chars(&v, 0, d))
            }
        },
    }
}

/// The extension of a path's file name.
pub fn extension_of(path: &String) -> (r: Option<String>)
    ensures
        opt_view(r) == path_extension(path@),
{
    match file_name_of(path) {
        None => None,
        Some(name) => {
            let v = chars_of(name.as_str());
            let d = find_last_dot(&v, v.len());
            proof {
                assert(v@.take(v@.len() as int) =~= v@);
                lemma_last_dot_bounds(v@);
            }
            if d == v.len() || d == 0 {
                None
            } else {
                let r = collect_chars(&v, d + 1, v.len());
                assert(r@ =~= v@.skip(d + 1));
                Some(r)
            }
        },
    }
}

/// The order of two texts as `str` and `OsStr` order them: by code point,
/// which is the order of their UTF-8 bytes, a proper prefix first.
/// -1, 0 or 1.
pub open spec fn text_order(a: Seq<char>, b: Seq<char>) -> int
    decreases a.len(),
{
    if a.len() == 0 {
        if b.len() == 0 { 0 } else { -1 }
    } else if b.len() == 0 {
        1
    } else if (a[0] as u32) < (b[0] as u32) {
        -1
    } else if (a[0] as u32) > (b[0] as u32) {
        1
    } else {
        text_order(a.drop_first(), b.drop_first())
    }
}

/// The component that one segment adds: none for an empty segment or `.`,
/// a parent for `..`, else a name. A component is its rank in the order of
/// `std::path::Component` (root 0, current directory 1, parent 2, name 3)
/// and, for a name, its text.
pub open spec fn segment_part(s: Seq<char>) -> Seq<(int, Seq<char>)> {
    if skipped(s) {
        Seq::empty()
    } else if s == seq!['.', '.'] {
        seq![(2int, Seq::<char>::empty())]
    } else {
        seq![(3int, s)]
    }
}

/// The components that these segments add, in order.
pub open spec fn segment_parts(segs: Seq<Seq<char>>) -> Seq<(int, Seq<char>)>
    decreases segs.len(),
{
    if segs.len() == 0 {
        Seq::empty()
    } else {
        segment_parts(segs.drop_last()) + segment_part(segs.last())
    }
}

/// The component before the segments: the root of a path that starts with
/// `/`, or the current directory of one that is `.` or starts with `./`.
pub open spec fn leading_part(p: Seq<char>) -> Seq<(int, Seq<char>)> {
    if p.len() > 0 && p[0] == '/' {
        seq![(0int, Seq::<char>::empty())]
    } else if p == seq!['.'] || (p.len() >= 2 && p[0] == '.' && p[1] == '/') {
        seq![(1int, Seq::<char>::empty())]
    } else {
        Seq::empty()
    }
}

/// The components of a path, as `Path::components` gives them.
pub open spec fn path_parts(p: Seq<char>) -> Seq<(int, Seq<char>)> {
    leading_part(p) + segment_parts(segments(p))
}

/// The order of two components: by rank, then by text.
pub open spec fn part_order(x: (int, Seq<char>), y: (int, Seq<char>)) -> int {
    if x.0 < y.0 {
        -1
    } else if x.0 > y.0 {
        1
    } else {
        text_order(x.1, y.1)
    }
}

/// The order of two sequences of components: the first that differ decide,
/// and a proper prefix comes first.
pub open spec fn parts_order(a: Seq<(int, Seq<char>)>, b: Seq<(int, Seq<char>)>) -> int
    decreases a.len(),
{
    if a.len() == 0 {
        if b.len() == 0 { 0 } else { -1 }
    } else if b.len() == 0 {
        1
    } else if part_order(a[0], b[0]) != 0 {
        part_order(a[0], b[0])
    } else {
        parts_order(a.drop_first(), b.drop_first())
    }
}

/// The order of two paths, as `Path`'s `Ord` gives it: -1, 0 or 1.
pub open spec fn path_order(p: Seq<char>, q: Seq<char>) -> int {
    parts_order(path_parts(p), path_parts(q))
}

/// `text_order` is -1, 0 or 1, flips with its arguments, and is transitive,
/// strictly where either step is strict.
pub proof fn lemma_text_order(a: Seq<char>, b: Seq<char>, c: Seq<char>)
    ensures
        -1 <= text_order(a, b) <= 1,
        text_order(a, b) == -text_order(b, a),
        text_order(a, b) <= 0 && text_order(b, c) <= 0 ==> text_order(a, c) <= 0,
        text_order(a, b) < 0 && text_order(b, c) <= 0 ==> text_order(a, c) < 0,
        text_order(a, b) <= 0 && text_order(b, c) < 0 ==> text_order(a, c) < 0,
        text_order(a, b) == 0 && text_order(b, c) == 0 ==> text_order(a, c) == 0,
    decreases a.len(),
{
    if a.len() > 0 && b.len() > 0 {
        let c1 = if c.len() > 0 { c.drop_first() } else { c };
        lemma_text_order(a.drop_first(), b.drop_first(), c1);
    }
}

/// `parts_order` is -1, 0 or 1, flips with its arguments, and is
/// transitive, strictly where either step is strict.
pub proof fn lemma_parts_order(
    a: Seq<(int, Seq<char>)>,
    b: Seq<(int, Seq<char>)>,
    c: Seq<(int, Seq<char>)>,
)
    ensures
        -1 <= parts_order(a, b) <= 1,
        parts_order(a, b) == -parts_order(b, a),
        parts_order(a, b) <= 0 && parts_order(b, c) <= 0 ==> parts_order(a, c) <= 0,
        parts_order(a, b) < 0 && parts_order(b, c) <= 0 ==> parts_order(a, c) < 0,
        parts_order(a, b) <= 0 && parts_order(b, c) < 0 ==> parts_order(a, c) < 0,
        parts_order(a, b) == 0 && parts_order(b, c) == 0 ==> parts_order(a, c) == 0,
    decreases a.len(),
{
    if a.len() > 0 && b.len() > 0 {
        let c1 = if c.len() > 0 { c.drop_first() } else { c };
        if c.len() > 0 {
            lemma_text_order(a[0].1, b[0].1, c[0].1);
        } else {
            lemma_text_order(a[0].1, b[0].1, b[0].1);
        }
        lemma_parts_order(a.drop_first(), b.drop_first(), c1);
    }
}

/// `path_order` is -1, 0 or 1, flips with its arguments, and is transitive.
pub proof fn lemma_path_order(p: Seq<char>, q: Seq<char>, s: Seq<char>)
    ensures
        -1 <= path_order(p, q) <= 1,
        path_order(p, q) == -path_order(q, p),
        path_order(p, q) <= 0 && path_order(q, s) <= 0 ==> path_order(p, s) <= 0,
{
    lemma_parts_order(path_parts(p), path_parts(q), path_parts(s));
}

/// One component of a path: its rank and, for a name, its text.
struct PathPart {
    rank: u8,
    name: Vec<char>,
}

spec fn part_view(c: PathPart) -> (int, Seq<char>) {
    (c.rank as int, c.name@)
}

spec fn parts_view(v: Seq<PathPart>) -> Seq<(int, Seq<char>)> {
    v.map_values(|c: PathPart| part_view(c))
}

/// Where the segment that starts at `start` ends: at the next `/`, or at
/// the end.
fn segment_end(v: &Vec<char>, start: usize) -> (r: usize)
    requires
        start <= v@.len(),
    ensures
        start <= r <= v@.len(),
        r < v@.len() ==> v@[r as int] == '/',
        forall|j: int| start <= j < r ==> v@[j] != '/',
{
    let mut i = start;
    while i < v.len()
        invariant
            start <= i <= v@.len(),
            forall|j: int| start <= j < i ==> v@[j] != '/',
        decreases v@.len() - i,
    {
        if v[i] == '/' {
            return i;
        }
        i = i + 1;
    }
    i
}

/// The characters `v[from..to)`.
fn copy_chars(v: &Vec<char>, from: usize, to: usize) -> (r: Vec<char>)
    requires
        from <= to <= v@.len(),
    ensures
        r@ == v@.subrange(from as int, to as int),
{
    let mut out: Vec<char> = Vec::new();
    let mut i = from;
    while i < to
        invariant
            from <= i <= to <= v@.len(),
            out@ == v@.subrange(from as int, i as int),
        decreases to - i,
    {
        out.push(v[i]);
        proof {
            assert(out@ =~= v@.subrange(from as int, i + 1));
        }
        i = i + 1;
    }
    out
}

proof fn lemma_segment_parts_push(segs: Seq<Seq<char>>, s: Seq<char>)
    ensures
        segment_parts(segs.push(s)) == segment_parts(segs) + segment_part(s),
{
    assert(segs.push(s).drop_last() =~= segs);
}

/// The components of a path.
fn parts_of(path: &String) -> (r: Vec<PathPart>)
    ensures
        parts_view(r@) == path_parts(path@),
{
    let v = chars_of(path.as_str());
    let mut out: Vec<PathPart> = Vec::new();
    if v.len() > 0 && v[0] == '/' {
        out.push(PathPart { rank: 0, name: Vec::new() });
    } else if (v.len() == 1 && v[0] == '.') || (v.len() >= 2 && v[0] == '.' && v[1] == '/') {
        out.push(PathPart { rank: 1, name: Vec::new() });
    }
    proof {
        if v@.len() == 1 && v@[0] == '.' {
            assert(v@ =~= seq!['.']);
        }
        if v@ == seq!['.'] {
            assert(v@[0] == '.');
        }
        assert(parts_view(out@) =~= leading_part(v@));
    }
    let ghost lead = parts_view(out@);
    let mut start: usize = 0;
    loop
        invariant
            v@ == path@,
            lead == leading_part(v@),
            start <= v@.len(),
            start > 0 ==> v@[start - 1] == '/',
            start == 0 ==> parts_view(out@) == lead,
            start > 0 ==> parts_view(out@) == lead + segment_parts(segments(v@.take(start - 1))),
        decreases v@.len() - start,
    {
        let end = segment_end(&v, start);
        let ghost p = v@.take(end as int);
        let ghost seg = v@.subrange(start as int, end as int);
        let ghost before = parts_view(out@);
        proof {
            assert forall|j: int| start <= j < p.len() implies p[j] != '/' by {
                assert(p[j] == v@[j]);
            }
            if start > 0 {
                assert(p[start - 1] == v@[start - 1]);
                lemma_segments_split(p, start - 1);
                assert(p.take(start - 1) =~= v@.take(start - 1));
                assert(p.subrange(start as int, p.len() as int) =~= seg);
                lemma_segment_parts_push(segments(v@.take(start - 1)), seg);
                assert(before + segment_part(seg) =~= lead + segment_parts(segments(p)));
            } else {
                lemma_segments_single(p);
                assert(p =~= seg);
                lemma_segment_parts_push(Seq::empty(), seg);
                assert(seq![seg] =~= Seq::<Seq<char>>::empty().push(seg));
                assert(segment_parts(Seq::<Seq<char>>::empty()) =~= Seq::empty());
                assert(before + segment_part(seg) =~= lead + segment_parts(segments(p)));
            }
        }
        if is_skipped(&v, start, end) {
            proof {
                assert(before + segment_part(seg) =~= before);
            }
        } else if is_parent(&v, start, end) {
            out.push(PathPart { rank: 2, name: Vec::new() });
            proof {
                assert(parts_view(out@) =~= before + segment_part(seg));
            }
        } else {
            let name = copy_chars(&v, start, end);
            out.push(PathPart { rank: 3, name });
            proof {
                assert(parts_view(out@) =~= before + segment_part(seg));
            }
        }
        if end == v.len() {
            proof {
                assert(p =~= v@);
            }
            return out;
        }
        start = end + 1;
    }
}

/// `text_order` of two character vectors.
fn text_order_of(a: &Vec<char>, b: &Vec<char>) -> (r: i8)
    ensures
        r as int == text_order(a@, b@),
{
    let mut i: usize = 0;
    assert(a@.skip(0) =~= a@);
    assert(b@.skip(0) =~= b@);
    while i < a.len() && i < b.len()
        invariant
            i <= a@.len(),
            i <= b@.len(),
            text_order(a@, b@) == text_order(a@.skip(i as int), b@.skip(i as int)),
        decreases a@.len() - i,
    {
        let x = a[i];
        let y = b[i];
        assert(a@.skip(i as int)[0] == x);
        assert(b@.skip(i as int)[0] == y);
        if (x as u32) < (y as u32) {
            return -1;
        }
        if (x as u32) > (y as u32) {
            return 1;
        }
        assert(a@.skip(i as int).drop_first() =~= a@.skip(i + 1));
        assert(b@.skip(i as int).drop_first() =~= b@.skip(i + 1));
        i = i + 1;
    }
    if i < a.len() {
        1
    } else if i < b.len() {
        -1
    } else {
        0
    }
}

/// `part_order` of two components.
fn part_order_of(x: &PathPart, y: &PathPart) -> (r: i8)
    ensures
        r as int == part_order(part_view(*x), part_view(*y)),
{
    if x.rank < y.rank {
        -1
    } else if x.rank > y.rank {
        1
    } else {
        text_order_of(&x.name, &y.name)
    }
}

/// The order of two paths, as `Path`'s `Ord` gives it.
pub fn path_order_of(p: &String, q: &String) -> (r: i8)
    ensures
        r as int == path_order(p@, q@),
{
    let a = parts_of(p);
    let b = parts_of(q);
    let ghost va = parts_view(a@);
    let ghost vb = parts_view(b@);
    let mut i: usize = 0;
    assert(va.skip(0) =~= va);
    assert(vb.skip(0) =~= vb);
    while i < a.len() && i < b.len()
        invariant
            va == parts_view(a@),
            vb == parts_view(b@),
            i <= a@.len(),
            i <= b@.len(),
            path_order(p@, q@) == parts_order(va.skip(i as int), vb.skip(i as int)),
        decreases a@.len() - i,
    {
        assert(va.skip(i as int)[0] == part_view(a@[i as int]));
        assert(vb.skip(i as int)[0] == part_view(b@[i as int]));
        let o = part_order_of(&a[i], &b[i]);
        if o != 0 {
            return o;
        }
        assert(va.skip(i as int).drop_first() =~= va.skip(i + 1));
        assert(vb.skip(i as int).drop_first() =~= vb.skip(i + 1));
        i = i + 1;
    }
    if i < a.len() {
        1
    } else if i < b.len() {
        -1
    } else {
        0
    }
}

} // verus!
