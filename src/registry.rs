use indexmap::IndexMap;
use vstd::prelude::*;

use crate::error::{CoreError, CoreResult};
use crate::model::{BridgeSpawnDescriptor, Node, NodeKind, NodePayload};
use crate::text::{concat2, concat3, concat4, str_eq};

verus! {

#[verifier::external_type_specification]
#[verifier::external_body]
#[verifier::reject_recursive_types(K)]
#[verifier::reject_recursive_types(V)]
#[verifier::reject_recursive_types(S)]
pub struct ExIndexMap<K, V, S>(IndexMap<K, V, S>);

/// The entries of an insertion-ordered map of nodes, keyed by node id, in order.
pub uninterp spec fn node_entries(m: IndexMap<String, Node>) -> Seq<(Seq<char>, Node)>;

/// Relies on IndexMap::new: a map with no entries.
#[verifier::external_body]
fn entries_new() -> (r: IndexMap<String, Node>)
    ensures
        node_entries(r) == Seq::<(Seq<char>, Node)>::empty(),
{
    IndexMap::new()
}

/// Relies on IndexMap::contains_key: whether an entry has the key.
#[verifier::external_body]
fn entries_contain(m: &IndexMap<String, Node>, id: &str) -> (r: bool)
    ensures
        r == has_key(node_entries(*m), id@),
{
    m.contains_key(id)
}

/// Relies on IndexMap::get: the value of the entry with the key.
#[verifier::external_body]
fn entries_get<'a>(m: &'a IndexMap<String, Node>, id: &str) -> (r: Option<&'a Node>)
    ensures
        r is None <==> !has_key(node_entries(*m), id@),
        r matches Some(n) ==> exists|i: int|
            0 <= i < node_entries(*m).len() && #[trigger] node_entries(*m)[i] == (id@, *n),
{
    m.get(id)
}

/// Relies on IndexMap::insert: a new key is appended last; an existing key keeps
/// its place and takes the new value.
#[verifier::external_body]
fn entries_insert(m: &mut IndexMap<String, Node>, id: String, node: Node)
    ensures
        !has_key(node_entries(*old(m)), id@) ==> node_entries(*final(m)) == node_entries(
            *old(m),
        ).push((id@, node)),
        forall|i: int|
            0 <= i < node_entries(*old(m)).len() && (#[trigger] node_entries(*old(m))[i]).0 == id@
                ==> node_entries(*final(m)) == node_entries(*old(m)).update(i, (id@, node)),
{
    m.insert(id, node);
}

pub open spec fn has_key(s: Seq<(Seq<char>, Node)>, k: Seq<char>) -> bool {
    exists|i: int| 0 <= i < s.len() && (#[trigger] s[i]).0 == k
}

pub open spec fn keys_distinct(s: Seq<(Seq<char>, Node)>) -> bool {
    forall|i: int, j: int| 0 <= i < j < s.len() ==> (#[trigger] s[i]).0 != (#[trigger] s[j]).0
}

/// The node stored under `k`, if any.
pub open spec fn lookup(s: Seq<(Seq<char>, Node)>, k: Seq<char>) -> Option<Node> {
    if has_key(s, k) {
        Some(s[choose|i: int| 0 <= i < s.len() && (#[trigger] s[i]).0 == k].1)
    } else {
        None
    }
}

/// The ids of the nodes of kind `k`, in insertion order.
pub open spec fn ids_of_kind(s: Seq<(Seq<char>, Node)>, k: NodeKind) -> Seq<Seq<char>>
    decreases s.len(),
{
    if s.len() == 0 {
        Seq::empty()
    } else {
        let rest = ids_of_kind(s.drop_last(), k);
        if s.last().1.kind == k {
            rest.push(s.last().0)
        } else {
            rest
        }
    }
}

/// `m` with `id` filed last under `k`.
pub open spec fn filed(m: Map<Seq<char>, Seq<Seq<char>>>, k: Seq<char>, id: Seq<char>) -> Map<
    Seq<char>,
    Seq<Seq<char>>,
> {
    m.insert(
        k,
        if m.contains_key(k) {
            m[k].push(id)
        } else {
            seq![id]
        },
    )
}

/// `m` with `id` filed under each of `keys` in turn.
pub open spec fn filed_all(
    m: Map<Seq<char>, Seq<Seq<char>>>,
    keys: Seq<Seq<char>>,
    id: Seq<char>,
) -> Map<Seq<char>, Seq<Seq<char>>>
    decreases keys.len(),
{
    if keys.len() == 0 {
        m
    } else {
        filed(filed_all(m, keys.drop_last(), id), keys.last(), id)
    }
}

pub open spec fn views(v: Seq<String>) -> Seq<Seq<char>> {
    v.map_values(|s: String| s@)
}

/// An index from a label (a tag or a section) to the ids filed under it, in
/// the order they were filed.
#[derive(Debug, Clone)]
pub struct GroupIndex {
    groups: Vec<(String, Vec<String>)>,
}

impl View for GroupIndex {
    type V = Map<Seq<char>, Seq<Seq<char>>>;

    closed spec fn view(&self) -> Map<Seq<char>, Seq<Seq<char>>> {
        Map::new(
            |k: Seq<char>| exists|i: int| 0 <= i < self.groups.len() && (#[trigger] self.groups@[i]).0@ == k,
            |k: Seq<char>|
                views(
                    self.groups@[choose|i: int|
                        0 <= i < self.groups.len() && (#[trigger] self.groups@[i]).0@ == k].1@,
                ),
        )
    }
}

impl GroupIndex {
    pub closed spec fn wf(&self) -> bool {
        forall|i: int, j: int|
            0 <= i < j < self.groups.len() ==> (#[trigger] self.groups@[i]).0@ != (
            #[trigger] self.groups@[j]).0@
    }

    pub fn new() -> (r: GroupIndex)
        ensures
            r.wf(),
            r@ == Map::<Seq<char>, Seq<Seq<char>>>::empty(),
    {
        let r = GroupIndex { groups: Vec::new() };
        assert(r@ =~= Map::<Seq<char>, Seq<Seq<char>>>::empty());
        r
    }

    /// Position of the group labelled `key`.
    fn position(&self, key: &str) -> (r: Option<usize>)
        ensures
            r matches Some(i) ==> i < self.groups.len() && self.groups@[i as int].0@ == key@,
            r is None ==> forall|j: int| 0 <= j < self.groups.len() ==> (#[trigger] self.groups@[j]).0@ != key@,
    {
        let mut i: usize = 0;
        while i < self.groups.len()
            invariant
                i <= self.groups.len(),
                forall|j: int| 0 <= j < i ==> (#[trigger] self.groups@[j]).0@ != key@,
            decreases self.groups.len() - i,
        {
            if str_eq(self.groups[i].0.as_str(), key) {
                return Some(i);
            }
            i = i + 1;
        }
        None
    }

    /// Files `id` last under `key`.
    pub fn add(&mut self, key: String, id: String)
        requires
            old(self).wf(),
        ensures
            final(self).wf(),
            final(self)@ == old(self)@.insert(
                key@,
                if old(self)@.contains_key(key@) {
                    old(self)@[key@].push(id@)
                } else {
                    seq![id@]
                },
            ),
    {
        match self.position(key.as_str()) {
            Some(i) => {
                let ghost g0 = self.groups@;
                let (k, mut ids) = self.groups.remove(i);
                ids.push(id);
                self.groups.insert(i, (k, ids));
                assert(self.groups@ == g0.update(i as int, self.groups@[i as int]));
                assert(self.groups@[i as int].0@ == key@);
                assert forall|a: int, b: int|
                    0 <= a < b < self.groups.len() implies (#[trigger] self.groups@[a]).0@ != (
                    #[trigger] self.groups@[b]).0@ by {
                    assert(g0[a].0@ != g0[b].0@);
                }
                assert(old(self)@.contains_key(key@));
                let ghost ci = choose|j: int| 0 <= j < g0.len() && (#[trigger] g0[j]).0@ == key@;
                assert(ci == i);
                assert(views(self.groups@[i as int].1@) =~= views(g0[i as int].1@).push(id@));
                assert forall|k: Seq<char>| #[trigger] self@.contains_key(k) implies old(self)@.contains_key(k) by {
                    let j = choose|j: int| 0 <= j < self.groups.len() && (#[trigger] self.groups@[j]).0@ == k;
                    assert(g0[j].0@ == k);
                }
                assert forall|k: Seq<char>| #[trigger] old(self)@.contains_key(k) && k != key@ implies self@[k] == old(self)@[k] by {
                    let j = choose|j: int| 0 <= j < g0.len() && (#[trigger] g0[j]).0@ == k;
                    assert(self.groups@[j].0@ == k);
                    let j2 = choose|j2: int| 0 <= j2 < self.groups.len() && (#[trigger] self.groups@[j2]).0@ == k;
                    assert(j2 == j);
                }
                assert forall|k: Seq<char>| #[trigger] old(self)@.contains_key(k) implies self@.contains_key(k) by {
                    let j = choose|j: int| 0 <= j < g0.len() && (#[trigger] g0[j]).0@ == k;
                    assert(self.groups@[j].0@ == k);
                }
                assert(self@ =~= old(self)@.insert(key@, old(self)@[key@].push(id@)));
            },
            None => {
                let ghost g0 = self.groups@;
                let ids = vec![id];
                self.groups.push((key, ids));
                let n = self.groups.len() - 1;
                assert(views(self.groups@[n as int].1@) =~= seq![id@]);
                assert(!old(self)@.contains_key(key@));
                assert forall|k: Seq<char>| #[trigger] self@.contains_key(k) && k != key@ implies old(self)@.contains_key(k) && self@[k] == old(self)@[k] by {
                    let j = choose|j: int| 0 <= j < self.groups.len() && (#[trigger] self.groups@[j]).0@ == k;
                    assert(j < n);
                    assert(g0[j].0@ == k);
                    let j0 = choose|j0: int| 0 <= j0 < g0.len() && (#[trigger] g0[j0]).0@ == k;
                    assert(self.groups@[j0] == g0[j0]);
                }
                assert forall|k: Seq<char>| #[trigger] old(self)@.contains_key(k) implies self@.contains_key(k) by {
                    let j = choose|j: int| 0 <= j < g0.len() && (#[trigger] g0[j]).0@ == k;
                    assert(self.groups@[j].0@ == k);
                }
                assert(self.groups@[n as int].0@ == key@);
                let ghost jk = choose|j: int| 0 <= j < self.groups.len() && (#[trigger] self.groups@[j]).0@ == key@;
                assert(jk == n);
                assert(self@ =~= old(self)@.insert(key@, seq![id@]));
            },
        }
    }

    /// The ids filed under `key`.
    pub fn get(&self, key: &str) -> (r: Option<&Vec<String>>)
        requires
            self.wf(),
        ensures
            r is None <==> !self@.contains_key(key@),
            r matches Some(ids) ==> views(ids@) == self@[key@],
    {
        match self.position(key) {
            Some(i) => {
                let ghost j = choose|j: int| 0 <= j < self.groups.len() && (#[trigger] self.groups@[j]).0@ == key@;
                assert(j == i);
                Some(&self.groups[i].1)
            },
            None => None,
        }
    }
}

/// A path that a node's payload names and that must be present on disk: the
/// path itself, or only its parent directory where `parent_only` is set.
#[derive(Debug, Clone)]
pub struct PathCheck {
    pub label: String,
    pub path: String,
    pub parent_only: bool,
}

pub open spec fn opt_check(p: Option<String>, parent_only: bool) -> Seq<(Seq<char>, bool)> {
    match p {
        Some(s) => seq![(s@, parent_only)],
        None => Seq::empty(),
    }
}

pub open spec fn spawn_check(d: Option<BridgeSpawnDescriptor>) -> Seq<(Seq<char>, bool)> {
    match d {
        Some(d) => seq![(d.entry@, false)],
        None => Seq::empty(),
    }
}

/// The paths that a payload names, in the order they are checked, each with
/// whether only its parent must exist.
pub open spec fn payload_checks(p: NodePayload) -> Seq<(Seq<char>, bool)> {
    match p {
        NodePayload::Doc { content_path } => seq![(content_path@, false)],
        NodePayload::Component { source_root } => seq![(source_root@, false)],
        NodePayload::Setup { template_root, .. } => seq![(template_root@, false)],
        NodePayload::Bridge { template_root, runner, config_template, spawn, logs_path, .. } =>
            opt_check(template_root, false) + opt_check(runner, false) + opt_check(
            config_template,
            false,
        ) + spawn_check(spawn) + opt_check(logs_path, true),
    }
}

pub open spec fn check_views(v: Seq<PathCheck>) -> Seq<(Seq<char>, bool)> {
    v.map_values(|c: PathCheck| (c.path@, c.parent_only))
}

fn push_check(v: &mut Vec<PathCheck>, label: &str, path: &String, parent_only: bool)
    ensures
        check_views(final(v)@) == check_views(old(v)@).push((path@, parent_only)),
{
    v.push(PathCheck { label: label.to_owned(), path: path.clone(), parent_only });
    assert(check_views(final(v)@) =~= check_views(old(v)@).push((path@, parent_only)));
}

fn push_opt_check(v: &mut Vec<PathCheck>, label: &str, path: &Option<String>, parent_only: bool)
    ensures
        check_views(final(v)@) == check_views(old(v)@) + opt_check(*path, parent_only),
{
    match path {
        Some(p) => {
            push_check(v, label, p, parent_only);
            assert(check_views(final(v)@) =~= check_views(old(v)@) + opt_check(*path, parent_only));
        },
        None => {
            assert(check_views(final(v)@) =~= check_views(old(v)@) + opt_check(*path, parent_only));
        },
    }
}

/// The paths of `node`'s payload that must be present for it to be accepted.
pub fn path_checks(node: &Node) -> (r: Vec<PathCheck>)
    ensures
        check_views(r@) == payload_checks(node.payload),
{
    let mut v: Vec<PathCheck> = Vec::new();
    match &node.payload {
        NodePayload::Doc { content_path } => {
            push_check(&mut v, "doc content path not found", content_path, false);
        },
        NodePayload::Component { source_root } => {
            push_check(&mut v, "component source root not found", source_root, false);
        },
        NodePayload::Setup { template_root, .. } => {
            push_check(&mut v, "setup template root not found", template_root, false);
        },
        NodePayload::Bridge { template_root, runner, config_template, spawn, logs_path, .. } => {
            push_opt_check(&mut v, "bridge template root not found", template_root, false);
            push_opt_check(&mut v, "bridge runner not found", runner, false);
            push_opt_check(&mut v, "bridge config template not found", config_template, false);
            match spawn {
                Some(d) => {
                    push_check(&mut v, "bridge spawn entry not found", &d.entry, false);
                },
                None => {},
            }
            push_opt_check(&mut v, "bridge logs path parent missing", logs_path, true);
        },
    }
    assert(check_views(v@) =~= payload_checks(node.payload));
    v
}

pub open spec fn prerequisite_keys_distinct(n: Node) -> bool {
    forall|i: int, j: int|
        0 <= i < j < n.prerequisites.len() ==> (#[trigger] n.prerequisites@[i]).key@ != (
        #[trigger] n.prerequisites@[j]).key@
}

/// A bridge's heartbeat interval, where given, is positive.
pub open spec fn interval_ok(p: NodePayload) -> bool {
    match p {
        NodePayload::Bridge { heartbeat_interval_ms, .. } => heartbeat_interval_ms != Some(0u64),
        _ => true,
    }
}

/// Node `i` of `nodes` is accepted after those before it: its id is new, its
/// payload is of its kind, its prerequisite keys are distinct, the paths that
/// its payload names are present, and its heartbeat interval is positive.
pub open spec fn node_accepted(nodes: Seq<Node>, present: Seq<Vec<bool>>, i: int) -> bool {
    &&& forall|j: int| 0 <= j < i ==> (#[trigger] nodes[j]).id@ != nodes[i].id@
    &&& nodes[i].kind_agrees()
    &&& prerequisite_keys_distinct(nodes[i])
    &&& forall|k: int| 0 <= k < present[i].len() ==> #[trigger] present[i]@[k]
    &&& interval_ok(nodes[i].payload)
}

/// The node graph, keyed by node id in insertion order, with indexes by kind,
/// tag and section.
#[derive(Debug)]
pub struct Registry {
    nodes: IndexMap<String, Node>,
    docs: Vec<String>,
    components: Vec<String>,
    by_tag: GroupIndex,
    by_section: GroupIndex,
    bridges: Vec<String>,
}

impl View for Registry {
    type V = Seq<(Seq<char>, Node)>;

    closed spec fn view(&self) -> Seq<(Seq<char>, Node)> {
        node_entries(self.nodes)
    }
}

impl Registry {
    pub closed spec fn wf(&self) -> bool {
        let e = node_entries(self.nodes);
        &&& keys_distinct(e)
        &&& forall|i: int| 0 <= i < e.len() ==> (#[trigger] e[i]).1.kind_agrees() && e[i].1.id@ == e[i].0
        &&& views(self.docs@) == ids_of_kind(e, NodeKind::Doc)
        &&& views(self.components@) == ids_of_kind(e, NodeKind::Component)
        &&& views(self.bridges@) == ids_of_kind(e, NodeKind::Bridge)
        &&& self.by_tag.wf()
        &&& self.by_section.wf()
    }

    /// The node filed under `id`.
    pub open spec fn node(&self, id: Seq<char>) -> Option<Node> {
        lookup(self@, id)
    }

    /// The tags index.
    pub closed spec fn tags(&self) -> Map<Seq<char>, Seq<Seq<char>>> {
        self.by_tag@
    }

    /// The sections index.
    pub closed spec fn sections(&self) -> Map<Seq<char>, Seq<Seq<char>>> {
        self.by_section@
    }

    /// A registry with no node.
    pub fn empty() -> (r: Registry)
        ensures
            r.wf(),
            r@ == Seq::<(Seq<char>, Node)>::empty(),
            r.tags() == Map::<Seq<char>, Seq<Seq<char>>>::empty(),
            r.sections() == Map::<Seq<char>, Seq<Seq<char>>>::empty(),
    {
        let r = Registry {
            nodes: entries_new(),
            docs: Vec::new(),
            components: Vec::new(),
            by_tag: GroupIndex::new(),
            by_section: GroupIndex::new(),
            bridges: Vec::new(),
        };
        assert(views(r.docs@) =~= Seq::<Seq<char>>::empty());
        assert(views(r.components@) =~= Seq::<Seq<char>>::empty());
        assert(views(r.bridges@) =~= Seq::<Seq<char>>::empty());
        r
    }

    /// A registry holding `nodes`, each checked and filed as `insert` does;
    /// `present[i]` says which of the paths of `path_checks(&nodes[i])` exist.
    pub fn new(nodes: Vec<Node>, present: &Vec<Vec<bool>>) -> (r: CoreResult<Registry>)
        requires
            present.len() == nodes.len(),
            forall|i: int|
                0 <= i < nodes.len() ==> (#[trigger] present@[i]).len() == payload_checks(
                    nodes@[i].payload,
                ).len(),
        ensures
            r is Ok <==> forall|i: int| 0 <= i < nodes.len() ==> node_accepted(nodes@, present@, i),
            r is Err ==> (r matches Err(CoreError::InvalidDescriptor(_))),
            r matches Ok(g) ==> g.wf() && g@.len() == nodes.len() && (forall|i: int|
                0 <= i < nodes.len() ==> (#[trigger] g@[i]) == (nodes@[i].id@, nodes@[i])),
    {
        let mut registry = Registry::empty();
        let ghost all = nodes@;
        let mut rest = nodes;
        let mut i: usize = 0;
        while i < present.len()
            invariant
                registry.wf(),
                present.len() == all.len(),
                i <= all.len(),
                rest@ == all.subrange(i as int, all.len() as int),
                all == nodes@,
                forall|j: int|
                    0 <= j < all.len() ==> (#[trigger] present@[j]).len() == payload_checks(
                        all[j].payload,
                    ).len(),
                registry@.len() == i,
                forall|j: int| 0 <= j < i ==> (#[trigger] registry@[j]) == (all[j].id@, all[j]),
                forall|j: int| 0 <= j < i ==> node_accepted(all, present@, j),
            decreases all.len() - i,
        {
            let node = rest.remove(0);
            assert(node == all[i as int]);
            let ghost before = registry@;
            match registry.insert(node, &present[i]) {
                Ok(()) => {
                    assert forall|j: int| 0 <= j < i implies (#[trigger] all[j]).id@ != all[i as int].id@ by {
                        assert(before[j].0 == all[j].id@);
                    }
                    assert(node_accepted(all, present@, i as int));
                },
                Err(e) => {
                    assert(!node_accepted(all, present@, i as int)) by {
                        if has_key(before, all[i as int].id@) {
                            let j = choose|j: int| 0 <= j < before.len() && (#[trigger] before[j]).0 == all[i as int].id@;
                            assert(all[j].id@ == all[i as int].id@);
                        }
                    }
                    assert(!(forall|k: int| 0 <= k < nodes@.len() ==> node_accepted(nodes@, present@, k)));
                    return Err(e);
                },
            }
            i = i + 1;
        }
        Ok(registry)
    }

    /// Adds `node` under its id after checking it: its id is new, its payload
    /// is of its kind, its prerequisite keys are distinct, the paths that its
    /// payload names exist (`present[i]` says whether the i-th of
    /// `path_checks(&node)` does), and a bridge's heartbeat interval is
    /// positive. Every failure is `InvalidDescriptor` and leaves the registry
    /// as it was.
    pub fn insert(&mut self, node: Node, present: &Vec<bool>) -> (r: CoreResult<()>)
        requires
            old(self).wf(),
            present.len() == payload_checks(node.payload).len(),
        ensures
            final(self).wf(),
            r is Ok <==> (!has_key(old(self)@, node.id@) && node.kind_agrees()
                && prerequisite_keys_distinct(node) && (forall|i: int|
                0 <= i < present.len() ==> #[trigger] present@[i]) && interval_ok(node.payload)),
            r is Err ==> (r matches Err(CoreError::InvalidDescriptor(_))),
            r is Err ==> *final(self) == *old(self),
            r is Ok ==> final(self)@ == old(self)@.push((node.id@, node)),
            r is Ok ==> final(self).tags() == filed_all(old(self).tags(), views(node.meta.tags@), node.id@),
            r is Ok ==> final(self).sections() == match node.meta.section {
                Some(s) => filed(old(self).sections(), s@, node.id@),
                None => old(self).sections(),
            },
    {
        if entries_contain(&self.nodes, node.id.as_str()) {
            return Err(CoreError::InvalidDescriptor(concat2("duplicate node id ", node.id.as_str())));
        }
        let agrees = match (&node.kind, &node.payload) {
            (NodeKind::Doc, NodePayload::Doc { .. }) => true,
            (NodeKind::Component, NodePayload::Component { .. }) => true,
            (NodeKind::Setup, NodePayload::Setup { .. }) => true,
            (NodeKind::Bridge, NodePayload::Bridge { .. }) => true,
            _ => false,
        };
        if !agrees {
            return Err(
                CoreError::InvalidDescriptor(
                    concat3("payload of node ", node.id.as_str(), " does not match its kind"),
                ),
            );
        }
        let n = node.prerequisites.len();
        let mut i: usize = 0;
        while i < n
            invariant
                n == node.prerequisites.len(),
                i <= n,
                *self == *old(self),
                self.wf(),
                forall|a: int, b: int|
                    0 <= a < b < i ==> (#[trigger] node.prerequisites@[a]).key@ != (
                    #[trigger] node.prerequisites@[b]).key@,
            decreases n - i,
        {
            let mut j: usize = 0;
            while j < i
                invariant
                    n == node.prerequisites.len(),
                    j <= i < n,
                    *self == *old(self),
                    self.wf(),
                    forall|a: int| 0 <= a < j ==> (#[trigger] node.prerequisites@[a]).key@ != node.prerequisites@[i as int].key@,
                decreases i - j,
            {
                if str_eq(node.prerequisites[j].key.as_str(), node.prerequisites[i].key.as_str()) {
                    return Err(
                        CoreError::InvalidDescriptor(
                            concat4(
                                "duplicate prerequisite key ",
                                node.prerequisites[i].key.as_str(),
                                " on node ",
                                node.id.as_str(),
                            ),
                        ),
                    );
                }
                j = j + 1;
            }
            i = i + 1;
        }
        let checks = path_checks(&node);
        let mut k: usize = 0;
        while k < checks.len()
            invariant
                checks.len() == present.len(),
                k <= present.len(),
                *self == *old(self),
                self.wf(),
                forall|a: int| 0 <= a < k ==> #[trigger] present@[a],
            decreases checks.len() - k,
        {
            if !present[k] {
                let head = concat3(checks[k].label.as_str(), " for node ", node.id.as_str());
                return Err(CoreError::InvalidDescriptor(concat3(head.as_str(), ": ", checks[k].path.as_str())));
            }
            k = k + 1;
        }
        if let NodePayload::Bridge { heartbeat_interval_ms: Some(ms), .. } = &node.payload {
            if *ms == 0 {
                return Err(
                    CoreError::InvalidDescriptor(
                        concat2("bridge heartbeat interval must be > 0 for node ", node.id.as_str()),
                    ),
                );
            }
        }
        let ghost tags0 = self.by_tag@;
        let mut t: usize = 0;
        while t < node.meta.tags.len()
            invariant
                self.by_tag.wf(),
                t <= node.meta.tags.len(),
                self.by_tag@ == filed_all(tags0, views(node.meta.tags@).subrange(0, t as int), node.id@),
                self.nodes == old(self).nodes,
                self.docs == old(self).docs,
                self.components == old(self).components,
                self.bridges == old(self).bridges,
                self.by_section == old(self).by_section,
            decreases node.meta.tags.len() - t,
        {
            let ghost before = views(node.meta.tags@).subrange(0, t as int);
            self.by_tag.add(node.meta.tags[t].clone(), node.id.clone());
            assert(views(node.meta.tags@).subrange(0, t + 1).drop_last() =~= before);
            t = t + 1;
        }
        assert(views(node.meta.tags@).subrange(0, node.meta.tags.len() as int) =~= views(node.meta.tags@));
        if let Some(section) = &node.meta.section {
            self.by_section.add(section.clone(), node.id.clone());
        }
        let ghost e0 = node_entries(self.nodes);
        let ghost kind = node.kind;
        match node.kind {
            NodeKind::Doc => self.docs.push(node.id.clone()),
            NodeKind::Component => self.components.push(node.id.clone()),
            NodeKind::Setup => {},
            NodeKind::Bridge => self.bridges.push(node.id.clone()),
        }
        let id = node.id.clone();
        let ghost nv = node;
        entries_insert(&mut self.nodes, id, node);
        let ghost e1 = node_entries(self.nodes);
        assert(e1 == e0.push((nv.id@, nv)));
        assert(e1.drop_last() =~= e0);
        assert(views(self.docs@) =~= ids_of_kind(e1, NodeKind::Doc));
        assert(views(self.components@) =~= ids_of_kind(e1, NodeKind::Component));
        assert(views(self.bridges@) =~= ids_of_kind(e1, NodeKind::Bridge));
        assert forall|a: int, b: int| 0 <= a < b < e1.len() implies (#[trigger] e1[a]).0 != (#[trigger] e1[b]).0 by {
            if b == e1.len() - 1 {
                assert(e0[a].0 != nv.id@);
            }
        }
        Ok(())
    }

    /// The node with id `id`.
    pub fn get(&self, id: &str) -> (r: CoreResult<&Node>)
        requires
            self.wf(),
        ensures
            self.node(id@) is None ==> (r matches Err(CoreError::UnknownNode(m)) && m@ == id@),
            self.node(id@) matches Some(n) ==> (r matches Ok(x) && *x == n),
            r matches Ok(x) ==> x.kind_agrees() && x.id@ == id@,
    {
        match entries_get(&self.nodes, id) {
            Some(n) => {
                let ghost e = node_entries(self.nodes);
                let ghost i = choose|i: int| 0 <= i < e.len() && #[trigger] e[i] == (id@, *n);
                let ghost j = choose|j: int| 0 <= j < e.len() && (#[trigger] e[j]).0 == id@;
                assert(e[i].0 == id@);
                assert(i == j);
                assert(e[i].1.kind_agrees());
                Ok(n)
            },
            None => Err(CoreError::UnknownNode(id.to_owned())),
        }
    }

    /// The ids of the doc, component and bridge nodes, each in insertion order.
    pub fn nodes_by_kind(&self) -> (r: (&[String], &[String], &[String]))
        requires
            self.wf(),
        ensures
            views(r.0@) == ids_of_kind(self@, NodeKind::Doc),
            views(r.1@) == ids_of_kind(self@, NodeKind::Component),
            views(r.2@) == ids_of_kind(self@, NodeKind::Bridge),
    {
        (self.docs.as_slice(), self.components.as_slice(), self.bridges.as_slice())
    }

    /// The ids of the nodes tagged `tag`, in insertion order.
    pub fn nodes_by_tag(&self, tag: &str) -> (r: Option<&Vec<String>>)
        requires
            self.wf(),
        ensures
            r is None <==> !self.tags().contains_key(tag@),
            r matches Some(ids) ==> views(ids@) == self.tags()[tag@],
    {
        self.by_tag.get(tag)
    }

    /// The ids of the nodes in section `section`, in insertion order.
    pub fn nodes_by_section(&self, section: &str) -> (r: Option<&Vec<String>>)
        requires
            self.wf(),
        ensures
            r is None <==> !self.sections().contains_key(section@),
            r matches Some(ids) ==> views(ids@) == self.sections()[section@],
    {
        self.by_section.get(section)
    }
}

} // verus!
