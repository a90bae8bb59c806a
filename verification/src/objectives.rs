//! The stored objective tree: a subtree read back as flat rows is
//! reassembled into nested nodes.

use vstd::prelude::*;
use crate::agent_record::{Timestamp, RowError, RowErrorKind, rfc3339_instant, instant, parse_rfc3339};
use crate::text::str_equal;
use crate::ids::{AgentId, ObjectiveId};
use crate::tree::ObjectiveStatus;

verus! {

/// An objective as the store holds it, with its sub-objectives.
#[derive(Debug)]
pub struct ObjectiveNode {
    pub id: ObjectiveId,
    pub parent_id: Option<ObjectiveId>,
    pub agent_id: Option<AgentId>,
    pub description: String,
    pub status: ObjectiveStatus,
    pub children: Vec<ObjectiveNode>,
    pub created_at: Timestamp,
    pub updated_at: Timestamp,
}

/// What a node holds besides its children.
pub struct NodeData {
    pub id: ObjectiveId,
    pub parent_id: Option<ObjectiveId>,
    pub agent_id: Option<AgentId>,
    pub description: Seq<char>,
    pub status: ObjectiveStatus,
    pub created_at: Timestamp,
    pub updated_at: Timestamp,
}

/// A tree of node data.
pub struct TreeView {
    pub data: NodeData,
    pub kids: Seq<TreeView>,
}

pub open spec fn data_of(n: ObjectiveNode) -> NodeData {
    NodeData {
        id: n.id,
        parent_id: n.parent_id,
        agent_id: n.agent_id,
        description: n.description@,
        status: n.status,
        created_at: n.created_at,
        updated_at: n.updated_at,
    }
}

/// The trees of a list of nodes.
pub open spec fn forest_view(ns: Seq<ObjectiveNode>) -> Seq<TreeView>
    decreases ns,
{
    if ns.len() == 0 {
        Seq::empty()
    } else {
        forest_view(ns.drop_last()).push(TreeView { data: data_of(ns.last()), kids: forest_view(ns.last().children@) })
    }
}

pub open spec fn tree_view(n: ObjectiveNode) -> TreeView {
    TreeView { data: data_of(n), kids: forest_view(n.children@) }
}

pub open spec fn opt_tree_view(n: Option<ObjectiveNode>) -> Option<TreeView> {
    match n {
        Some(x) => Some(tree_view(x)),
        None => None,
    }
}

/// Index of the last node with this id: a later row with the same id
/// replaces an earlier one.
pub open spec fn last_index(nodes: Seq<ObjectiveNode>, id: ObjectiveId) -> Option<int>
    decreases nodes.len(),
{
    if nodes.len() == 0 {
        None
    } else if nodes.last().id == id {
        Some(nodes.len() - 1)
    } else {
        last_index(nodes.drop_last(), id)
    }
}

/// Number of nodes not yet placed in the tree.
pub open spec fn live_count(slots: Seq<Option<ObjectiveNode>>) -> nat
    decreases slots.len(),
{
    if slots.len() == 0 {
        0
    } else {
        live_count(slots.drop_last()) + (if slots.last() is Some { 1nat } else { 0nat })
    }
}

/// `slots` with every slot emptied that is empty in `s`.
pub open spec fn cleared_like(s: Seq<Option<ObjectiveNode>>, slots: Seq<Option<ObjectiveNode>>) -> Seq<Option<ObjectiveNode>> {
    Seq::new(slots.len(), |i: int| if i < s.len() && s[i] is None { None } else { slots[i] })
}

pub proof fn lemma_live_count_clear(slots: Seq<Option<ObjectiveNode>>, k: int)
    requires
        0 <= k < slots.len(),
        slots[k] is Some,
    ensures
        live_count(slots.update(k, None)) < live_count(slots),
    decreases slots.len(),
{
    let u = slots.update(k, None);
    if k < slots.len() - 1 {
        assert(u.drop_last() =~= slots.drop_last().update(k, None));
        lemma_live_count_clear(slots.drop_last(), k);
    } else {
        assert(u.drop_last() =~= slots.drop_last());
    }
}

pub proof fn lemma_live_count_cleared_like(s: Seq<Option<ObjectiveNode>>, slots: Seq<Option<ObjectiveNode>>)
    ensures
        live_count(cleared_like(s, slots)) <= live_count(slots),
    decreases slots.len(),
{
    if slots.len() > 0 {
        let c = cleared_like(s, slots);
        assert(c.drop_last() =~= cleared_like(s, slots.drop_last()));
        lemma_live_count_cleared_like(s, slots.drop_last());
    }
}

/// The subtree of `id`: the last node with that id, if it is still free,
/// followed (after its own children) by the subtrees of the nodes naming it
/// as parent, in row order. Each node is placed at most once; returns the
/// slots left free.
pub open spec fn tree_from(
    nodes: Seq<ObjectiveNode>,
    slots: Seq<Option<ObjectiveNode>>,
    id: ObjectiveId,
) -> (Option<TreeView>, Seq<Option<ObjectiveNode>>)
    decreases live_count(slots), 0int, 0int,
{
    match last_index(nodes, id) {
        None => (None, slots),
        Some(k) => if 0 <= k < slots.len() && slots[k] is Some {
            let n = slots[k]->0;
            proof {
                lemma_live_count_clear(slots, k);
            }
            let (kids, rest) = forest_from(nodes, id, 0, slots.update(k, None));
            (Some(TreeView { data: data_of(n), kids: forest_view(n.children@) + kids }), rest)
        } else {
            (None, slots)
        },
    }
}

/// The subtrees of the children of `pid` among the rows from `j` on.
pub open spec fn forest_from(
    nodes: Seq<ObjectiveNode>,
    pid: ObjectiveId,
    j: int,
    slots: Seq<Option<ObjectiveNode>>,
) -> (Seq<TreeView>, Seq<Option<ObjectiveNode>>)
    decreases live_count(slots), 1int, nodes.len() - j,
{
    if j < 0 || j >= nodes.len() {
        (Seq::empty(), slots)
    } else if nodes[j].parent_id == Some(pid) {
        let (t, s1) = tree_from(nodes, slots, nodes[j].id);
        proof {
            lemma_live_count_cleared_like(s1, slots);
        }
        let (rest, s2) = forest_from(nodes, pid, j + 1, cleared_like(s1, slots));
        (
            match t {
                Some(tv) => seq![tv] + rest,
                None => rest,
            },
            s2,
        )
    } else {
        forest_from(nodes, pid, j + 1, slots)
    }
}

/// Every node in its own slot.
pub open spec fn initial_slots(nodes: Seq<ObjectiveNode>) -> Seq<Option<ObjectiveNode>> {
    Seq::new(nodes.len(), |i: int| Some(nodes[i]))
}

/// The tree rooted at `root_id` assembled from `nodes`.
pub open spec fn spec_build_tree(nodes: Seq<ObjectiveNode>, root_id: ObjectiveId) -> Option<TreeView> {
    tree_from(nodes, initial_slots(nodes), root_id).0
}

/// `b` differs from `a` only in slots that were filled and are now empty.
pub open spec fn only_cleared(a: Seq<Option<ObjectiveNode>>, b: Seq<Option<ObjectiveNode>>) -> bool {
    &&& b.len() == a.len()
    &&& forall|i: int| 0 <= i < a.len() ==> (#[trigger] b[i] is None || b[i] == a[i])
}

/// The ids and parents of the rows.
pub open spec fn links_match(links: Seq<(ObjectiveId, Option<ObjectiveId>)>, nodes: Seq<ObjectiveNode>) -> bool {
    &&& links.len() == nodes.len()
    &&& forall|i: int| 0 <= i < nodes.len() ==> #[trigger] links[i] == (nodes[i].id, nodes[i].parent_id)
}

fn find_last(links: &Vec<(ObjectiveId, Option<ObjectiveId>)>, id: ObjectiveId, Ghost(nodes): Ghost<Seq<ObjectiveNode>>) -> (r: Option<usize>)
    requires
        links_match(links@, nodes),
    ensures
        match r {
            Some(k) => last_index(nodes, id) == Some(k as int) && k < nodes.len(),
            None => last_index(nodes, id) is None,
        },
{
    let mut i = links.len();
    assert(nodes.take(i as int) =~= nodes);
    while i > 0
        invariant
            i <= links@.len(),
            links_match(links@, nodes),
            last_index(nodes, id) == last_index(nodes.take(i as int), id),
        decreases i,
    {
        assert(nodes.take(i as int).drop_last() =~= nodes.take(i - 1));
        if links[i - 1].0 == id {
            return Some(i - 1);
        }
        i = i - 1;
    }
    None
}

fn take_slot(slots: &mut Vec<Option<ObjectiveNode>>, k: usize) -> (r: Option<ObjectiveNode>)
    requires
        k < old(slots)@.len(),
    ensures
        r == old(slots)@[k as int],
        final(slots)@ == old(slots)@.update(k as int, None),
{
    let v = slots.remove(k);
    slots.insert(k, None);
    assert(slots@ =~= old(slots)@.update(k as int, None));
    v
}

fn subtree(
    links: &Vec<(ObjectiveId, Option<ObjectiveId>)>,
    id: ObjectiveId,
    slots: &mut Vec<Option<ObjectiveNode>>,
    Ghost(nodes): Ghost<Seq<ObjectiveNode>>,
) -> (r: Option<ObjectiveNode>)
    requires
        links_match(links@, nodes),
        old(slots)@.len() == nodes.len(),
    ensures
        (opt_tree_view(r), final(slots)@) == tree_from(nodes, old(slots)@, id),
        only_cleared(old(slots)@, final(slots)@),
    decreases live_count(old(slots)@), 0int, 0int,
{
    let ghost s0 = slots@;
    match find_last(links, id, Ghost(nodes)) {
        None => None,
        Some(k) => {
            match take_slot(slots, k) {
                None => None,
                Some(mut node) => {
                    proof {
                        lemma_live_count_clear(s0, k as int);
                    }
                    let ghost own = node.children@;
                    children_of(links, id, 0, slots, &mut node.children, Ghost(nodes));
                    proof {
                        let (kids, rest) = forest_from(nodes, id, 0, s0.update(k as int, None));
                        assert(forest_view(node.children@) == forest_view(own) + kids);
                        assert(data_of(node) == data_of(s0[k as int]->0));
                    }
                    Some(node)
                },
            }
        },
    }
}

fn children_of(
    links: &Vec<(ObjectiveId, Option<ObjectiveId>)>,
    pid: ObjectiveId,
    j: usize,
    slots: &mut Vec<Option<ObjectiveNode>>,
    out: &mut Vec<ObjectiveNode>,
    Ghost(nodes): Ghost<Seq<ObjectiveNode>>,
)
    requires
        links_match(links@, nodes),
        old(slots)@.len() == nodes.len(),
        j <= nodes.len(),
    ensures
        forest_view(final(out)@) == forest_view(old(out)@) + forest_from(nodes, pid, j as int, old(slots)@).0,
        final(slots)@ == forest_from(nodes, pid, j as int, old(slots)@).1,
        only_cleared(old(slots)@, final(slots)@),
    decreases live_count(old(slots)@), 1int, nodes.len() - j,
{
    let ghost s0 = slots@;
    let ghost o0 = out@;
    if j >= links.len() {
        assert(forest_view(o0) + Seq::<TreeView>::empty() =~= forest_view(o0));
        return;
    }
    if links[j].1 == Some(pid) {
        let child = subtree(links, links[j].0, slots, Ghost(nodes));
        let ghost s1 = slots@;
        proof {
            assert(cleared_like(s1, s0) =~= s1);
            lemma_live_count_cleared_like(s1, s0);
        }
        match child {
            Some(c) => {
                out.push(c);
                assert(out@.drop_last() =~= o0);
            },
            None => {},
        }
        let ghost o1 = out@;
        children_of(links, pid, j + 1, slots, out, Ghost(nodes));
        proof {
            let (t, s1x) = tree_from(nodes, s0, nodes[j as int].id);
            let (rest, s2) = forest_from(nodes, pid, j + 1, cleared_like(s1x, s0));
            match t {
                Some(tv) => {
                    assert(forest_view(o1) == forest_view(o0).push(tv));
                    assert(forest_view(out@) =~= forest_view(o0) + (seq![tv] + rest));
                },
                None => {
                    assert(o1 == o0);
                },
            }
        }
    } else {
        children_of(links, pid, j + 1, slots, out, Ghost(nodes));
    }
}

/// Assemble the tree rooted at `root_id` from its rows: each node gets, in
/// row order, the subtrees of the rows naming it as parent; a row repeated
/// with the same id counts once, as its last occurrence. `None` when no row
/// has the root's id.
pub fn build_tree(root_id: ObjectiveId, nodes: Vec<ObjectiveNode>) -> (r: Option<ObjectiveNode>)
    ensures
        opt_tree_view(r) == spec_build_tree(nodes@, root_id),
{
    let ghost all = nodes@;
    let mut links: Vec<(ObjectiveId, Option<ObjectiveId>)> = Vec::new();
    let n = nodes.len();
    let mut i: usize = 0;
    while i < n
        invariant
            n == nodes@.len(),
            nodes@ == all,
            i <= n,
            links@.len() == i,
            forall|m: int| 0 <= m < i ==> #[trigger] links@[m] == (all[m].id, all[m].parent_id),
        decreases n - i,
    {
        links.push((nodes[i].id, nodes[i].parent_id));
        i = i + 1;
    }
    let mut slots: Vec<Option<ObjectiveNode>> = Vec::new();
    let mut rest = nodes;
    while rest.len() > 0
        invariant
            all.len() == n,
            slots@.len() + rest@.len() == n,
            forall|m: int| 0 <= m < slots@.len() ==> #[trigger] slots@[m] == Some(all[m]),
            rest@ == all.skip(slots@.len() as int),
        decreases rest@.len(),
    {
        let first = rest.remove(0);
        proof {
            assert(first == all[slots@.len() as int]);
        }
        slots.push(Some(first));
        assert(rest@ =~= all.skip(slots@.len() as int));
    }
    assert(slots@ =~= initial_slots(all));
    subtree(&links, root_id, &mut slots, Ghost(all))
}

/// The status stored as `s`.
pub open spec fn status_of_text(s: Seq<char>) -> Option<ObjectiveStatus> {
    if s == "pending"@ {
        Some(ObjectiveStatus::Pending)
    } else if s == "in_progress"@ {
        Some(ObjectiveStatus::InProgress)
    } else if s == "done"@ {
        Some(ObjectiveStatus::Done)
    } else if s == "blocked"@ {
        Some(ObjectiveStatus::Blocked)
    } else {
        None
    }
}

/// The stored text of a status.
pub open spec fn status_text(st: ObjectiveStatus) -> Seq<char> {
    match st {
        ObjectiveStatus::Pending => "pending"@,
        ObjectiveStatus::InProgress => "in_progress"@,
        ObjectiveStatus::Done => "done"@,
        ObjectiveStatus::Blocked => "blocked"@,
    }
}

impl ObjectiveStatus {
    pub fn as_str(&self) -> (r: &'static str)
        ensures
            r@ == status_text(*self),
    {
        match self {
            ObjectiveStatus::Pending => "pending",
            ObjectiveStatus::InProgress => "in_progress",
            ObjectiveStatus::Done => "done",
            ObjectiveStatus::Blocked => "blocked",
        }
    }

    /// Parse a stored status; `None` for unknown text.
    pub fn parse(s: &str) -> (r: Option<ObjectiveStatus>)
        ensures
            r == status_of_text(s@),
    {
        if str_equal(s, "pending") {
            Some(ObjectiveStatus::Pending)
        } else if str_equal(s, "in_progress") {
            Some(ObjectiveStatus::InProgress)
        } else if str_equal(s, "done") {
            Some(ObjectiveStatus::Done)
        } else if str_equal(s, "blocked") {
            Some(ObjectiveStatus::Blocked)
        } else {
            None
        }
    }
}

/// Parsing the stored text of a status gives that status back.
pub proof fn lemma_status_text_round_trip(st: ObjectiveStatus)
    ensures
        status_of_text(status_text(st)) == Some(st),
{
    reveal_strlit("pending");
    reveal_strlit("in_progress");
    reveal_strlit("done");
    reveal_strlit("blocked");
    match st {
        ObjectiveStatus::Pending => {},
        ObjectiveStatus::InProgress => {
            assert("in_progress"@[0] != "pending"@[0]);
        },
        ObjectiveStatus::Done => {
            assert("done"@[0] != "pending"@[0]);
            assert("done"@[0] != "in_progress"@[0]);
        },
        ObjectiveStatus::Blocked => {
            assert("blocked"@[0] != "pending"@[0]);
            assert("blocked"@[0] != "in_progress"@[0]);
            assert("blocked"@[0] != "done"@[0]);
        },
    }
}

/// The columns of an objectives row.
#[derive(Debug)]
pub struct ObjectiveRow {
    pub id: ObjectiveId,
    pub parent_id: Option<ObjectiveId>,
    pub agent_id: Option<AgentId>,
    pub description: String,
    pub status: String,
    pub created_at: String,
    pub updated_at: String,
}

/// Column of `created_at` in an objectives row.
pub const NODE_CREATED_AT_COLUMN: usize = 5;
/// Column of `updated_at` in an objectives row.
pub const NODE_UPDATED_AT_COLUMN: usize = 6;

/// Decode an objectives row: an unknown status reads as pending; both
/// timestamps must be RFC 3339. The node has no children yet.
pub fn decode_objective_row(row: ObjectiveRow) -> (r: Result<ObjectiveNode, RowError>)
    ensures
        ({
            let created = rfc3339_instant(row.created_at@);
            let updated = rfc3339_instant(row.updated_at@);
            match r {
                Ok(n) => {
                    &&& created matches Some(c) && n.created_at == instant(c)
                    &&& updated matches Some(u) && n.updated_at == instant(u)
                    &&& n.id == row.id && n.parent_id == row.parent_id && n.agent_id == row.agent_id
                    &&& n.description == row.description
                    &&& n.status == match status_of_text(row.status@) {
                        Some(st) => st,
                        None => ObjectiveStatus::Pending,
                    }
                    &&& n.children@.len() == 0
                },
                Err(e) => if created is None {
                    e == RowError { column: NODE_CREATED_AT_COLUMN, kind: RowErrorKind::BadTimestamp }
                } else {
                    updated is None && e == RowError { column: NODE_UPDATED_AT_COLUMN, kind: RowErrorKind::BadTimestamp }
                },
            }
        }),
{
    let created = match parse_rfc3339(row.created_at.as_str()) {
        Some(c) => Timestamp { secs: c.0, nanos: c.1 },
        None => {
            return Err(RowError { column: NODE_CREATED_AT_COLUMN, kind: RowErrorKind::BadTimestamp });
        },
    };
    let updated = match parse_rfc3339(row.updated_at.as_str()) {
        Some(u) => Timestamp { secs: u.0, nanos: u.1 },
        None => {
            return Err(RowError { column: NODE_UPDATED_AT_COLUMN, kind: RowErrorKind::BadTimestamp });
        },
    };
    let status = match ObjectiveStatus::parse(row.status.as_str()) {
        Some(st) => st,
        None => ObjectiveStatus::Pending,
    };
    Ok(ObjectiveNode {
        id: row.id,
        parent_id: row.parent_id,
        agent_id: row.agent_id,
        description: row.description,
        status,
        children: Vec::new(),
        created_at: created,
        updated_at: updated,
    })
}

proof fn lemma_last_index(nodes: Seq<ObjectiveNode>, id: ObjectiveId)
    ensures
        match last_index(nodes, id) {
            Some(k) => 0 <= k < nodes.len() && nodes[k].id == id,
            None => forall|i: int| 0 <= i < nodes.len() ==> nodes[i].id != id,
        },
    decreases nodes.len(),
{
    if nodes.len() > 0 {
        lemma_last_index(nodes.drop_last(), id);
        if nodes.last().id != id {
            assert forall|i: int| 0 <= i < nodes.len() - 1 implies nodes[i] == nodes.drop_last()[i] by {}
        }
    }
}

/// The tree exists exactly when some row has the root's id, and then its
/// root is that row.
pub proof fn lemma_build_tree_root(nodes: Seq<ObjectiveNode>, root_id: ObjectiveId)
    ensures
        spec_build_tree(nodes, root_id) is Some <==> exists|i: int| 0 <= i < nodes.len() && nodes[i].id == root_id,
        spec_build_tree(nodes, root_id) matches Some(t) ==> t.data.id == root_id,
{
    lemma_last_index(nodes, root_id);
    match last_index(nodes, root_id) {
        Some(k) => {
            assert(initial_slots(nodes)[k] == Some(nodes[k]));
        },
        None => {},
    }
}

} // verus!
