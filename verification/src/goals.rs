//! Goal files: the title a goal takes from its text, and the mapping from
//! goal file names to objective ids that survives restarts.

use vstd::prelude::*;
use crate::ids::ObjectiveId;
use crate::lines::{split_lines, lines_of, lines_view, trim, trim_bounds, collect_chars, words, split_words};
use crate::text::{chars_of, from_str, opt_view};
use crate::agent_record::{uuid_from_text, parse_uuid};
use crate::paths::{path_order, path_order_of, lemma_path_order, path_stem, path_file_name, path_extension, file_stem_of, file_name_of, extension_of};
use crate::tree::{GoalObjective, ObjectiveStatus};

verus! {

/// The title a line gives: its trimmed text after a leading `"# "`, when
/// that is not blank.
pub open spec fn line_title(line: Seq<char>) -> Option<Seq<char>> {
    let t = trim(line);
    if t.len() >= 2 && t[0] == '#' && t[1] == ' ' {
        let r = trim(t.skip(2));
        if r.len() > 0 { Some(r) } else { None }
    } else {
        None
    }
}

/// The title of the first line that gives one.
pub open spec fn first_title(ls: Seq<Seq<char>>) -> Option<Seq<char>>
    decreases ls.len(),
{
    if ls.len() == 0 {
        None
    } else {
        match line_title(ls[0]) {
            Some(t) => Some(t),
            None => first_title(ls.drop_first()),
        }
    }
}

/// The title of a goal file's text: its first `# ` heading.
pub open spec fn title_of(content: Seq<char>) -> Option<Seq<char>> {
    first_title(split_lines(content))
}

fn title_of_line(line: &String) -> (r: Option<String>)
    ensures
        opt_view(r) == line_title(line@),
{
    let v = chars_of(line.as_str());
    let (lo, hi) = trim_bounds(&v, 0, v.len());
    assert(v@.subrange(0, v@.len() as int) =~= v@);
    if hi - lo >= 2 && v[lo] == '#' && v[lo + 1] == ' ' {
        let (a, b) = trim_bounds(&v, lo + 2, hi);
        assert(v@.subrange(lo as int, hi as int).skip(2) =~= v@.subrange(lo + 2, hi as int));
        if b > a {
            Some(collect_chars(&v, a, b))
        } else {
            None
        }
    } else {
        None
    }
}

/// The text of the first `# ` heading of a goal file, trimmed; `None` when
/// there is no non-blank one.
pub fn extract_title(content: &str) -> (r: Option<String>)
    ensures
        opt_view(r) == title_of(content@),
{
    let ls = lines_of(content);
    let n = ls.len();
    let mut i: usize = 0;
    assert(lines_view(ls@).skip(0) =~= lines_view(ls@));
    while i < n
        invariant
            n == ls@.len(),
            i <= n,
            lines_view(ls@) == split_lines(content@),
            first_title(lines_view(ls@)) == first_title(lines_view(ls@).skip(i as int)),
        decreases n - i,
    {
        let ghost rest = lines_view(ls@).skip(i as int);
        assert(rest[0] == ls@[i as int]@);
        assert(rest.drop_first() =~= lines_view(ls@).skip(i + 1));
        let t = title_of_line(&ls[i]);
        if t.is_some() {
            return t;
        }
        i = i + 1;
    }
    assert(lines_view(ls@).skip(n as int) =~= Seq::<Seq<char>>::empty());
    None
}

/// The title a goal takes: its heading, else the file's stem, else
/// `"untitled"`.
pub open spec fn goal_title(content: Seq<char>, stem: Option<Seq<char>>) -> Seq<char> {
    match title_of(content) {
        Some(t) => t,
        None => match stem {
            Some(s) => s,
            None => "untitled"@,
        },
    }
}

impl GoalObjective {
    /// The goal read from the file at `file_path` (whose stem is `stem`)
    /// holding `content`: pending, with no id, agent or sub-objectives yet.
    fn from_contents(file_path: String, stem: Option<String>, content: String) -> (r: GoalObjective)
        ensures
            r.id is None,
            r.file_path == file_path,
            r.title@ == goal_title(content@, opt_view(stem)),
            r.content == content,
            r.status == ObjectiveStatus::Pending,
            r.agent_id is None,
            r.children@.len() == 0,
    {
        let title = match extract_title(content.as_str()) {
            Some(t) => t,
            None => match stem {
                Some(s) => s,
                None => from_str("untitled"),
            },
        };
        GoalObjective {
            id: None,
            file_path,
            title,
            content,
            status: ObjectiveStatus::Pending,
            agent_id: None,
            children: Vec::new(),
        }
    }

    /// The goal read from the file at `file_path` holding `content`: its
    /// title is the first heading, else the file's stem, else `"untitled"`;
    /// pending, with no id, agent or sub-objectives yet.
    pub fn from_path_and_contents(file_path: String, content: String) -> (r: GoalObjective)
        ensures
            r.title@ == match title_of(content@) {
                Some(t) => t,
                None => match path_stem(file_path@) {
                    Some(s) => s,
                    None => "untitled"@,
                },
            },
            r.content == content,
            r.file_path == file_path,
            r.id is None,
            r.agent_id is None,
            r.status == ObjectiveStatus::Pending,
            r.children@.len() == 0,
    {
        let stem = file_stem_of(&file_path);
        GoalObjective::from_contents(file_path, stem, content)
    }
}

/// The file name of each goal's path, as the mapping file keys them.
pub fn goal_file_names(goals: &Vec<GoalObjective>) -> (r: Vec<Option<String>>)
    ensures
        r@.len() == goals@.len(),
        forall|i: int| 0 <= i < goals@.len() ==> opt_view(#[trigger] r@[i]) == path_file_name(goals@[i].file_path@),
{
    let mut out: Vec<Option<String>> = Vec::new();
    let n = goals.len();
    let mut i: usize = 0;
    while i < n
        invariant
            n == goals@.len(),
            i <= n,
            out@.len() == i,
            forall|j: int| 0 <= j < i ==> opt_view(#[trigger] out@[j]) == path_file_name(goals@[j].file_path@),
        decreases n - i,
    {
        out.push(file_name_of(&goals[i].file_path));
        i = i + 1;
    }
    out
}

/// Whether a path names a goal file: its extension is `md`.
pub open spec fn is_goal_path(p: Seq<char>) -> bool {
    path_extension(p) == Some(seq!['m', 'd'])
}

/// Whether a path's extension is `md`.
pub fn goal_path(p: &String) -> (r: bool)
    ensures
        r == is_goal_path(p@),
{
    match extension_of(p) {
        Some(e) => {
            let cs = chars_of(e.as_str());
            let yes = cs.len() == 2 && cs[0] == 'm' && cs[1] == 'd';
            proof {
                if yes {
                    assert(cs@ =~= seq!['m', 'd']);
                } else if cs@.len() == 2 {
                    assert(cs@[0] != 'm' || cs@[1] != 'd');
                }
            }
            yes
        },
        None => false,
    }
}

/// The goal files among these paths, in their order.
pub open spec fn goal_paths(paths: Seq<String>) -> Seq<String>
    decreases paths.len(),
{
    if paths.len() == 0 {
        Seq::empty()
    } else if is_goal_path(paths.last()@) {
        goal_paths(paths.drop_last()).push(paths.last())
    } else {
        goal_paths(paths.drop_last())
    }
}

/// Whether these paths stand in `Path` order.
pub open spec fn in_path_order(paths: Seq<String>) -> bool {
    forall|i: int, j: int| 0 <= i < j < paths.len() ==> path_order(paths[i]@, paths[j]@) <= 0
}

/// The goal files among `paths`, ordered as `Path` orders them.
pub fn select_goal_paths(paths: Vec<String>) -> (r: Vec<String>)
    ensures
        r@.to_multiset() == goal_paths(paths@).to_multiset(),
        in_path_order(r@),
{
    let mut out: Vec<String> = Vec::new();
    let mut i: usize = 0;
    proof {
        assert(paths@.take(0) =~= Seq::<String>::empty());
        assert(goal_paths(Seq::<String>::empty()) =~= Seq::<String>::empty());
    }
    while i < paths.len()
        invariant
            i <= paths@.len(),
            out@.to_multiset() == goal_paths(paths@.take(i as int)).to_multiset(),
            in_path_order(out@),
        decreases paths@.len() - i,
    {
        let p = paths[i].clone();
        proof {
            assert(paths@.take(i + 1) =~= paths@.take(i as int).push(p));
            assert(paths@.take(i + 1).drop_last() =~= paths@.take(i as int));
            assert(paths@.take(i + 1).last() == p);
        }
        if goal_path(&p) {
            let mut j: usize = out.len();
            while j > 0 && path_order_of(&out[j - 1], &p) > 0
                invariant
                    j <= out@.len(),
                    forall|k: int| j <= k < out@.len() ==> path_order(out@[k]@, p@) > 0,
                decreases j,
            {
                j = j - 1;
            }
            let ghost before = out@;
            proof {
                if j > 0 {
                    assert forall|k: int| 0 <= k < j implies path_order(before[k]@, p@) <= 0 by {
                        if k < j - 1 {
                            lemma_path_order(before[k]@, before[j - 1]@, p@);
                        }
                    }
                }
            }
            out.insert(j, p);
            proof {
                assert(out@ == before.insert(j as int, p));
                vstd::seq_lib::to_multiset_insert(before, j as int, p);
                vstd::seq_lib::to_multiset_build(goal_paths(paths@.take(i as int)), p);
                assert(goal_paths(paths@.take(i + 1)) == goal_paths(paths@.take(i as int)).push(p));
                assert forall|a: int, b: int| 0 <= a < b < out@.len() implies
                    path_order(out@[a]@, out@[b]@) <= 0 by {
                    if a == j {
                        lemma_path_order(before[b - 1]@, p@, p@);
                    } else if b == j {
                    } else if b < j {
                    } else if a < j {
                    } else {
                    }
                }
            }
        }
        i = i + 1;
    }
    proof {
        assert(paths@.take(paths@.len() as int) =~= paths@);
    }
    out
}

/// File name to objective id, as the mapping file beside the goal files
/// records it. A name occurs at most once.
#[derive(Debug)]
pub struct GoalMapping {
    pub entries: Vec<(String, ObjectiveId)>,
}

/// The id recorded for a file name.
pub open spec fn lookup(entries: Seq<(String, ObjectiveId)>, name: Seq<char>) -> Option<ObjectiveId>
    decreases entries.len(),
{
    if entries.len() == 0 {
        None
    } else if entries[0].0@ == name {
        Some(entries[0].1)
    } else {
        lookup(entries.drop_first(), name)
    }
}

/// No file name is recorded twice.
pub open spec fn names_unique(entries: Seq<(String, ObjectiveId)>) -> bool {
    forall|i: int, j: int| 0 <= i < j < entries.len() ==> entries[i].0@ != entries[j].0@
}

/// `b` is `a` with at most its id changed.
pub open spec fn same_but_id(a: GoalObjective, b: GoalObjective) -> bool {
    b == GoalObjective { id: b.id, ..a }
}

/// Some goal is named `k`.
pub open spec fn names_contain(names: Seq<Option<String>>, k: Seq<char>) -> bool {
    exists|i: int| 0 <= i < names.len() && #[trigger] opt_view(names[i]) == Some(k)
}

/// `name` is a file name the mapping lacks.
pub open spec fn unmapped(name: Option<String>, entries: Seq<(String, ObjectiveId)>) -> bool {
    match name {
        Some(n) => lookup(entries, n@) is None,
        None => false,
    }
}

/// Some goal is named with a file name the mapping lacks.
pub open spec fn some_unmapped(names: Seq<Option<String>>, entries: Seq<(String, ObjectiveId)>) -> bool {
    exists|i: int| 0 <= i < names.len() && #[trigger] unmapped(names[i], entries)
}

/// The goals and mapping after reconciling: each named goal carries the id
/// its file name maps to, names the mapping lacked got fresh ids appended,
/// earlier records stay, and `changed` tells whether any was added.
pub open spec fn reconciled(
    old_goals: Seq<GoalObjective>,
    names: Seq<Option<String>>,
    old_map: Seq<(String, ObjectiveId)>,
    goals: Seq<GoalObjective>,
    map: Seq<(String, ObjectiveId)>,
    changed: bool,
) -> bool {
    &&& goals.len() == old_goals.len()
    &&& forall|i: int| 0 <= i < goals.len() ==> #[trigger] same_but_id(old_goals[i], goals[i])
    &&& forall|i: int| 0 <= i < goals.len() ==> match #[trigger] names[i] {
        Some(n) => lookup(map, n@) is Some && goals[i].id == lookup(map, n@),
        None => goals[i].id == old_goals[i].id,
    }
    &&& forall|k: Seq<char>| #[trigger] lookup(old_map, k) is Some ==> lookup(map, k) == lookup(old_map, k)
    &&& forall|k: Seq<char>| #[trigger] lookup(map, k) is Some ==> lookup(old_map, k) is Some || names_contain(names, k)
    &&& changed == some_unmapped(names, old_map)
    &&& names_unique(old_map) ==> names_unique(map)
}

proof fn lemma_lookup_push(m: Seq<(String, ObjectiveId)>, e: (String, ObjectiveId), k: Seq<char>)
    ensures
        lookup(m.push(e), k) == (if lookup(m, k) is Some {
            lookup(m, k)
        } else if e.0@ == k {
            Some(e.1)
        } else {
            None
        }),
    decreases m.len(),
{
    if m.len() > 0 {
        assert(m.push(e)[0] == m[0]);
        assert(m.push(e).drop_first() =~= m.drop_first().push(e));
        lemma_lookup_push(m.drop_first(), e, k);
    } else {
        assert(m.push(e)[0] == e);
        assert(m.push(e).drop_first() =~= Seq::<(String, ObjectiveId)>::empty());
        assert(lookup(m.push(e).drop_first(), k) is None);
    }
}

proof fn lemma_lookup_none(m: Seq<(String, ObjectiveId)>, k: Seq<char>, j: int)
    requires
        lookup(m, k) is None,
        0 <= j < m.len(),
    ensures
        m[j].0@ != k,
    decreases m.len(),
{
    if j > 0 {
        lemma_lookup_none(m.drop_first(), k, j - 1);
    }
}

/// A fresh objective id.
/// Calls `uuid::Uuid::new_v4`; nothing is claimed of the id drawn.
#[verifier::external_body]
fn fresh_objective_id() -> (r: ObjectiveId) {
    ObjectiveId(uuid::Uuid::new_v4().as_u128())
}

fn set_goal_id(goals: &mut Vec<GoalObjective>, i: usize, id: Option<ObjectiveId>)
    requires
        i < old(goals)@.len(),
    ensures
        final(goals)@ == old(goals)@.update(i as int, GoalObjective { id, ..old(goals)@[i as int] }),
{
    let ghost before = goals@;
    let mut g = goals.remove(i);
    g.id = id;
    goals.insert(i, g);
    assert(goals@ =~= before.update(i as int, GoalObjective { id, ..before[i as int] }));
}

impl GoalMapping {
    /// The id recorded for `name`.
    pub fn get(&self, name: &String) -> (r: Option<ObjectiveId>)
        ensures
            r == lookup(self.entries@, name@),
    {
        let n = self.entries.len();
        let mut i: usize = 0;
        assert(self.entries@.skip(0) =~= self.entries@);
        while i < n
            invariant
                n == self.entries@.len(),
                i <= n,
                lookup(self.entries@, name@) == lookup(self.entries@.skip(i as int), name@),
            decreases n - i,
        {
            assert(self.entries@.skip(i as int).drop_first() =~= self.entries@.skip(i + 1));
            if self.entries[i].0 == *name {
                return Some(self.entries[i].1);
            }
            i = i + 1;
        }
        None
    }
}

/// Every recorded id text is a UUID.
pub open spec fn all_ids_parse(raw: Seq<(String, String)>) -> bool {
    forall|i: int| 0 <= i < raw.len() ==> (#[trigger] uuid_from_text(raw[i].1@)) is Some
}

/// `entries` are `raw` with each id text read as a UUID.
pub open spec fn read_entries(raw: Seq<(String, String)>, entries: Seq<(String, ObjectiveId)>) -> bool {
    &&& entries.len() == raw.len()
    &&& forall|i: int| 0 <= i < raw.len() ==> {
        &&& (#[trigger] entries[i]).0 == raw[i].0
        &&& uuid_from_text(raw[i].1@) == Some(entries[i].1.0)
    }
}

impl GoalMapping {
    /// The mapping recorded as pairs of file name and id text. A single
    /// id that is not a UUID makes the whole record unreadable: `None`.
    pub fn from_texts(raw: Vec<(String, String)>) -> (r: Option<GoalMapping>)
        ensures
            r is Some <==> all_ids_parse(raw@),
            r matches Some(m) ==> read_entries(raw@, m.entries@),
    {
        let ghost raw0 = raw@;
        let mut entries: Vec<(String, ObjectiveId)> = Vec::new();
        let mut rest = raw;
        let n = rest.len();
        let mut i: usize = 0;
        while i < n
            invariant
                raw0 == raw@,
                n == raw0.len(),
                i <= n,
                rest@ == raw0.skip(i as int),
                forall|j: int| 0 <= j < i ==> (#[trigger] uuid_from_text(raw0[j].1@)) is Some,
                read_entries(raw0.take(i as int), entries@),
            decreases n - i,
        {
            let (name, text) = rest.remove(0);
            assert(raw0.skip(i as int)[0] == raw0[i as int]);
            match parse_uuid(text.as_str()) {
                Some(v) => {
                    entries.push((name, ObjectiveId(v)));
                },
                None => {
                    assert(uuid_from_text(raw0[i as int].1@) is None);
                    return None;
                },
            }
            proof {
                assert(rest@ =~= raw0.skip(i as int + 1));
                assert(raw0.take(i as int + 1).drop_last() =~= raw0.take(i as int));
            }
            i = i + 1;
        }
        assert(raw0.take(n as int) =~= raw0);
        Some(GoalMapping { entries })
    }
}

/// Give each goal the id its file name maps to (`names[i]` is the file name
/// of `goals[i]`, `None` when it has none), recording a fresh id for each
/// name not yet mapped. Returns whether the mapping gained a record and so
/// must be saved.
pub fn reconcile_with_mapping(goals: &mut Vec<GoalObjective>, names: &Vec<Option<String>>, mapping: &mut GoalMapping) -> (changed: bool)
    requires
        old(goals)@.len() == names@.len(),
    ensures
        reconciled(old(goals)@, names@, old(mapping).entries@, final(goals)@, final(mapping).entries@, changed),
{
    let ghost g0 = goals@;
    let ghost m0 = mapping.entries@;
    let n = goals.len();
    let mut changed = false;
    let mut i: usize = 0;
    while i < n
        invariant
            n == goals@.len(),
            n == g0.len(),
            names@.len() == n,
            i <= n,
            forall|j: int| 0 <= j < n ==> #[trigger] same_but_id(g0[j], goals@[j]),
            forall|j: int| i <= j < n ==> goals@[j] == #[trigger] g0[j],
            forall|j: int| 0 <= j < i ==> match #[trigger] names@[j] {
                Some(nm) => lookup(mapping.entries@, nm@) is Some && goals@[j].id == lookup(mapping.entries@, nm@),
                None => goals@[j].id == g0[j].id,
            },
            forall|k: Seq<char>| #[trigger] lookup(m0, k) is Some ==> lookup(mapping.entries@, k) == lookup(m0, k),
            forall|k: Seq<char>| #[trigger] lookup(mapping.entries@, k) is Some ==> lookup(m0, k) is Some
                || exists|j: int| 0 <= j < i && #[trigger] opt_view(names@[j]) == Some(k),
            changed == exists|j: int| 0 <= j < i && #[trigger] unmapped(names@[j], m0),
            names_unique(m0) ==> names_unique(mapping.entries@),
        decreases n - i,
    {
        match &names[i] {
            Some(name) => {
                match mapping.get(name) {
                    Some(id) => {
                        set_goal_id(goals, i, Some(id));
                        proof {
                            if lookup(m0, name@) is None {
                                let j = choose|j: int| 0 <= j < i && #[trigger] opt_view(names@[j]) == Some(name@);
                                assert(names@[j] matches Some(nm) && nm@ == name@);
                                assert(unmapped(names@[j], m0));
                            }
                        }
                    },
                    None => {
                        let id = fresh_objective_id();
                        let ghost before = mapping.entries@;
                        let entry = (name.clone(), id);
                        mapping.entries.push(entry);
                        proof {
                            assert forall|k: Seq<char>| #[trigger] lookup(m0, k) is Some implies lookup(mapping.entries@, k) == lookup(m0, k) by {
                                lemma_lookup_push(before, entry, k);
                            }
                            assert forall|k: Seq<char>| #[trigger] lookup(mapping.entries@, k) is Some implies lookup(m0, k) is Some
                                || exists|j: int| 0 <= j < i + 1 && #[trigger] opt_view(names@[j]) == Some(k) by {
                                lemma_lookup_push(before, entry, k);
                                if lookup(before, k) is None {
                                    assert(opt_view(names@[i as int]) == Some(k));
                                }
                            }
                            lemma_lookup_push(before, entry, name@);
                            assert forall|j: int| 0 <= j < i implies match #[trigger] names@[j] {
                                Some(nm) => lookup(mapping.entries@, nm@) is Some && goals@[j].id == lookup(mapping.entries@, nm@),
                                None => goals@[j].id == g0[j].id,
                            } by {
                                if names@[j] is Some {
                                    lemma_lookup_push(before, entry, names@[j]->0@);
                                }
                            }
                            if names_unique(m0) {
                                assert forall|a: int, b: int| 0 <= a < b < mapping.entries@.len()
                                    implies mapping.entries@[a].0@ != mapping.entries@[b].0@ by {
                                    if b == before.len() {
                                        lemma_lookup_none(before, name@, a);
                                    }
                                }
                            }
                            if lookup(m0, name@) is Some {
                                assert(lookup(before, name@) == lookup(m0, name@));
                            }
                        }
                        proof {
                            assert(unmapped(names@[i as int], m0));
                        }
                        set_goal_id(goals, i, Some(id));
                        changed = true;
                    },
                }
            },
            None => {
                assert(!unmapped(names@[i as int], m0));
            },
        }
        i = i + 1;
    }
    proof {
        assert forall|k: Seq<char>| #[trigger] lookup(mapping.entries@, k) is Some implies lookup(m0, k) is Some || names_contain(names@, k) by {
            if lookup(m0, k) is None {
                let j = choose|j: int| 0 <= j < n && #[trigger] opt_view(names@[j]) == Some(k);
                assert(0 <= j < names@.len() && opt_view(names@[j]) == Some(k));
            }
        }
    }
    changed
}

/// Reconciling again right after a reconcile changes nothing: no record is
/// added, every goal keeps its id and every file name maps as before.
pub proof fn lemma_reconcile_settles(
    g0: Seq<GoalObjective>,
    names: Seq<Option<String>>,
    m0: Seq<(String, ObjectiveId)>,
    g1: Seq<GoalObjective>,
    m1: Seq<(String, ObjectiveId)>,
    c1: bool,
    g2: Seq<GoalObjective>,
    m2: Seq<(String, ObjectiveId)>,
    c2: bool,
)
    requires
        g0.len() == names.len(),
        reconciled(g0, names, m0, g1, m1, c1),
        reconciled(g1, names, m1, g2, m2, c2),
    ensures
        !c2,
        g2 == g1,
        forall|k: Seq<char>| lookup(m2, k) == lookup(m1, k),
{
    assert forall|i: int| 0 <= i < names.len() implies !#[trigger] unmapped(names[i], m1) by {
        if names[i] is Some {
            assert(lookup(m1, names[i]->0@) is Some);
        }
    }
    assert forall|i: int| 0 <= i < g2.len() implies g2[i] == g1[i] by {
        assert(same_but_id(g1[i], g2[i]));
        match names[i] {
            Some(n) => {
                assert(lookup(m1, n@) is Some);
                assert(lookup(m2, n@) == lookup(m1, n@));
            },
            None => {},
        }
    }
    assert(g2 =~= g1);
    assert forall|k: Seq<char>| lookup(m2, k) == lookup(m1, k) by {
        if lookup(m1, k) is None && lookup(m2, k) is Some {
            assert(names_contain(names, k));
            let i = choose|i: int| 0 <= i < names.len() && #[trigger] opt_view(names[i]) == Some(k);
            assert(names[i] is Some);
            assert(lookup(m1, names[i]->0@) is Some);
        }
    }
}

/// The program and arguments an editor setting names: its first word and
/// the words after it; `vi` when it has no word.
pub open spec fn editor_command(editor: Seq<char>) -> (Seq<char>, Seq<Seq<char>>) {
    let w = words(editor);
    if w.len() == 0 {
        ("vi"@, Seq::empty())
    } else {
        (w[0], w.drop_first())
    }
}

/// Split an editor setting into the program to run and its arguments.
pub fn editor_argv(editor: &str) -> (r: (String, Vec<String>))
    ensures
        r.0@ == editor_command(editor@).0,
        lines_view(r.1@) == editor_command(editor@).1,
{
    let mut ws = split_words(editor);
    if ws.len() == 0 {
        (from_str("vi"), Vec::new())
    } else {
        let ghost all = ws@;
        let program = ws.remove(0);
        assert(lines_view(ws@) =~= lines_view(all).drop_first());
        (program, ws)
    }
}

} // verus!
