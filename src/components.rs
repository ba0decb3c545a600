use vstd::prelude::*;

use crate::error::{CoreError, CoreResult};
use crate::model::{kind_label, Node, NodeKind, NodePayload, Prerequisite};
use crate::paths::{join, joined};
use crate::registry::{views, Registry};
use crate::text::{concat2, concat3, contains_str, copy_strings, str_eq};
use crate::util::{ascii_lower, fold_words, name_variants};

verus! {

/// One tree or file copied: where from, where to, and how many files.
#[derive(Debug, Clone)]
pub struct CopyItemReport {
    pub from: String,
    pub to: String,
    pub count: usize,
}

/// What a copy into the workspace did, with notes for the caller.
#[derive(Debug, Clone)]
pub struct CopyReport {
    pub copied: Vec<CopyItemReport>,
    pub notes: Vec<String>,
}

/// One file to copy, overwriting what is at `to`.
#[derive(Debug, Clone)]
pub struct FileCopy {
    pub from: String,
    pub to: String,
}

pub open spec fn copy_views(v: Seq<FileCopy>) -> Seq<(Seq<char>, Seq<char>)> {
    v.map_values(|c: FileCopy| (c.from@, c.to@))
}

/// What the prerequisites of a component node say of a selection: the modes
/// that the `selection.mode` schema allows and the names that the
/// `selection.names` schema allows (each `None` where the schema lists none),
/// and whether names may be omitted.
pub open spec fn prereq_rules(p: Seq<Prerequisite>) -> (Option<Seq<Seq<char>>>, Option<Seq<Seq<char>>>, bool)
    decreases p.len(),
{
    if p.len() == 0 {
        (None, None, true)
    } else {
        let (modes, names, optional) = prereq_rules(p.drop_last());
        let q = p.last();
        if q.key@ == "selection.mode"@ {
            (if q.schema_enum@.len() > 0 { Some(views(q.schema_enum@)) } else { modes }, names, optional)
        } else if q.key@ == "selection.names"@ {
            (modes, if q.schema_items_enum@.len() > 0 { Some(views(q.schema_items_enum@)) } else { names }, q.optional)
        } else {
            (modes, names, optional)
        }
    }
}

/// The allowed modes and names that the prerequisites declare, and whether
/// names may be omitted; a later prerequisite with a non-empty list wins.
pub fn parse_prereqs(prereqs: &Vec<Prerequisite>) -> (r: (Option<Vec<String>>, Option<Vec<String>>, bool))
    ensures
        (match r.0 { Some(v) => Some(views(v@)), None => None }, match r.1 { Some(v) => Some(views(v@)), None => None }, r.2)
            == prereq_rules(prereqs@),
{
    let mut modes: Option<Vec<String>> = None;
    let mut names: Option<Vec<String>> = None;
    let mut names_optional = true;
    let mut i: usize = 0;
    while i < prereqs.len()
        invariant
            i <= prereqs.len(),
            (match modes { Some(v) => Some(views(v@)), None => None }, match names { Some(v) => Some(views(v@)), None => None }, names_optional)
                == prereq_rules(prereqs@.subrange(0, i as int)),
        decreases prereqs.len() - i,
    {
        let p = &prereqs[i];
        assert(prereqs@.subrange(0, i + 1).drop_last() =~= prereqs@.subrange(0, i as int));
        if str_eq(p.key.as_str(), "selection.mode") {
            if p.schema_enum.len() > 0 {
                modes = Some(copy_strings(&p.schema_enum));
            }
        } else if str_eq(p.key.as_str(), "selection.names") {
            names_optional = p.optional;
            if p.schema_items_enum.len() > 0 {
                names = Some(copy_strings(&p.schema_items_enum));
            }
        }
        i = i + 1;
    }
    assert(prereqs@.subrange(0, prereqs.len() as int) =~= prereqs@);
    (modes, names, names_optional)
}

/// The keys of the required prerequisites other than the selection ones.
pub open spec fn other_required(p: Seq<Prerequisite>) -> Seq<Seq<char>>
    decreases p.len(),
{
    if p.len() == 0 {
        Seq::empty()
    } else {
        let rest = other_required(p.drop_last());
        let q = p.last();
        if !q.optional && q.key@ != "selection.mode"@ && q.key@ != "selection.names"@ {
            rest.push(q.key@)
        } else {
            rest
        }
    }
}

fn missing_required(prereqs: &Vec<Prerequisite>) -> (r: Vec<String>)
    ensures
        views(r@) == other_required(prereqs@),
{
    let mut out: Vec<String> = Vec::new();
    let mut i: usize = 0;
    while i < prereqs.len()
        invariant
            i <= prereqs.len(),
            views(out@) == other_required(prereqs@.subrange(0, i as int)),
        decreases prereqs.len() - i,
    {
        let p = &prereqs[i];
        assert(prereqs@.subrange(0, i + 1).drop_last() =~= prereqs@.subrange(0, i as int));
        if !p.optional && !str_eq(p.key.as_str(), "selection.mode") && !str_eq(p.key.as_str(), "selection.names") {
            out.push(p.key.clone());
            assert(views(out@) =~= other_required(prereqs@.subrange(0, i as int)).push(p.key@));
        }
        i = i + 1;
    }
    assert(prereqs@.subrange(0, prereqs.len() as int) =~= prereqs@);
    out
}

/// The strings of `v` joined by `sep`.
pub open spec fn joined_with(v: Seq<Seq<char>>, sep: Seq<char>) -> Seq<char>
    decreases v.len(),
{
    if v.len() == 0 {
        Seq::empty()
    } else if v.len() == 1 {
        v[0]
    } else {
        joined_with(v.drop_last(), sep) + sep + v.last()
    }
}

fn join_with(v: &Vec<String>, sep: &str) -> (r: String)
    ensures
        r@ == joined_with(views(v@), sep@),
{
    let mut out = String::new();
    let mut i: usize = 0;
    while i < v.len()
        invariant
            i <= v.len(),
            out@ == joined_with(views(v@).subrange(0, i as int), sep@),
        decreases v.len() - i,
    {
        assert(views(v@).subrange(0, i + 1).drop_last() =~= views(v@).subrange(0, i as int));
        if i > 0 {
            out = concat2(out.as_str(), sep);
        }
        out = concat2(out.as_str(), v[i].as_str());
        assert(views(v@).subrange(0, i as int).len() == 0 ==> views(v@).subrange(0, i + 1) =~= seq![v@[i as int]@]);
        i = i + 1;
    }
    assert(views(v@).subrange(0, v.len() as int) =~= views(v@));
    out
}

pub open spec fn in_list(v: Seq<Seq<char>>, s: Seq<char>) -> bool {
    exists|i: int| 0 <= i < v.len() && v[i] == s
}

/// The names of `list` that `allowed` does not hold, in order.
pub open spec fn not_allowed(list: Seq<Seq<char>>, allowed: Seq<Seq<char>>) -> Seq<Seq<char>>
    decreases list.len(),
{
    if list.len() == 0 {
        Seq::empty()
    } else {
        let rest = not_allowed(list.drop_last(), allowed);
        if in_list(allowed, list.last()) {
            rest
        } else {
            rest.push(list.last())
        }
    }
}

fn invalid_names(list: &Vec<String>, allowed: &Vec<String>) -> (r: Vec<String>)
    ensures
        views(r@) == not_allowed(views(list@), views(allowed@)),
{
    let mut out: Vec<String> = Vec::new();
    let mut i: usize = 0;
    while i < list.len()
        invariant
            i <= list.len(),
            views(out@) == not_allowed(views(list@).subrange(0, i as int), views(allowed@)),
        decreases list.len() - i,
    {
        assert(views(list@).subrange(0, i + 1).drop_last() =~= views(list@).subrange(0, i as int));
        let ok = contains_str(allowed, list[i].as_str());
        assert(ok == in_list(views(allowed@), list@[i as int]@)) by {
            if ok {
                let j = choose|j: int| 0 <= j < allowed@.len() && #[trigger] allowed@[j]@ == list@[i as int]@;
                assert(views(allowed@)[j] == list@[i as int]@);
            }
            if in_list(views(allowed@), list@[i as int]@) {
                let j = choose|j: int| 0 <= j < views(allowed@).len() && views(allowed@)[j] == list@[i as int]@;
                assert(allowed@[j]@ == list@[i as int]@);
            }
        }
        if !ok {
            out.push(list[i].clone());
            assert(views(out@) =~= not_allowed(views(list@).subrange(0, i as int), views(allowed@)).push(list@[i as int]@));
        }
        i = i + 1;
    }
    assert(views(list@).subrange(0, list.len() as int) =~= views(list@));
    out
}

/// The source root of a component payload.
pub open spec fn component_root(p: NodePayload) -> Seq<char> {
    match p {
        NodePayload::Component { source_root } => source_root@,
        _ => Seq::empty(),
    }
}

fn names_missing() -> (r: CoreError)
    ensures
        r matches CoreError::MissingSelections(v) && views(v@) == seq!["selection.names"@],
{
    let v = vec!["selection.names".to_owned()];
    assert(views(v@) =~= seq!["selection.names"@]);
    CoreError::MissingSelections(v)
}

/// The components chosen for an install: where they come from, where they
/// go, and their names in order.
#[derive(Debug, Clone)]
pub struct ComponentSelection {
    pub source_root: String,
    pub to_root: String,
    pub names: Vec<String>,
}

/// A place where a component may be found, tried in order: a directory
/// copied whole to `to`, or a single file copied to `to`.
#[derive(Debug, Clone)]
pub struct ComponentSource {
    pub from: String,
    pub to: String,
    pub is_dir: bool,
}

/// The spellings of a component name, in the order they are tried.
pub open spec fn variants_of(name: Seq<char>) -> Seq<Seq<char>> {
    seq![name, fold_words(name, '-').0, fold_words(name, '_').0, name.map_values(|c: char| ascii_lower(c))]
}

/// The file extensions of single-file components, in the order they are tried.
pub open spec fn component_exts() -> Seq<Seq<char>> {
    seq!["tsx"@, "ts"@, "jsx"@, "js"@]
}

/// The places where component `name` is looked for under `root`, in order:
/// a directory under each spelling, then a file under each spelling with
/// each extension; directories go to `<to_root>/<name>`, files keep their
/// file name under `to_root`.
pub open spec fn candidate_places(root: Seq<char>, to_root: Seq<char>, name: Seq<char>) -> Seq<(Seq<char>, Seq<char>, bool)> {
    Seq::new(4, |i: int| (joined(root, variants_of(name)[i]), joined(to_root, name), true))
        + Seq::new(16, |i: int| {
            let f = variants_of(name)[i / 4] + "."@ + component_exts()[i % 4];
            (joined(root, f), joined(to_root, f), false)
        })
}

pub open spec fn source_views(v: Seq<ComponentSource>) -> Seq<(Seq<char>, Seq<char>, bool)> {
    v.map_values(|c: ComponentSource| (c.from@, c.to@, c.is_dir))
}

/// Where component `name` of `selection` may be found and where each
/// candidate goes; the first that exists is copied.
pub fn component_sources(selection: &ComponentSelection, name: &str) -> (r: Vec<ComponentSource>)
    ensures
        source_views(r@) == candidate_places(selection.source_root@, selection.to_root@, name@),
{
    let variants = name_variants(name);
    assert(views(variants@) =~= variants_of(name@));
    let exts: Vec<&str> = vec!["tsx", "ts", "jsx", "js"];
    assert(exts@[0]@ == "tsx"@ && exts@[1]@ == "ts"@ && exts@[2]@ == "jsx"@ && exts@[3]@ == "js"@);
    let ghost places = candidate_places(selection.source_root@, selection.to_root@, name@);
    assert(places.len() == 20);
    let mut out: Vec<ComponentSource> = Vec::new();
    let dest_dir = join(selection.to_root.as_str(), name);
    let mut i: usize = 0;
    while i < 4
        invariant
            i <= 4,
            variants@.len() == 4,
            views(variants@) == variants_of(name@),
            dest_dir@ == joined(selection.to_root@, name@),
            places.len() == 20,
            places == candidate_places(selection.source_root@, selection.to_root@, name@),
            source_views(out@) == places.subrange(0, i as int),
        decreases 4 - i,
    {
        let from = join(selection.source_root.as_str(), variants[i].as_str());
        out.push(ComponentSource { from, to: dest_dir.clone(), is_dir: true });
        assert(places.subrange(0, i + 1) =~= places.subrange(0, i as int).push(places[i as int]));
        assert(source_views(out@) =~= places.subrange(0, i as int).push(places[i as int]));
        i = i + 1;
    }
    let mut k: usize = 0;
    while k < 16
        invariant
            k <= 16,
            variants@.len() == 4,
            views(variants@) == variants_of(name@),
            exts@.len() == 4,
            forall|e: int| 0 <= e < 4 ==> (#[trigger] exts@[e])@ == component_exts()[e],
            places.len() == 20,
            places == candidate_places(selection.source_root@, selection.to_root@, name@),
            source_views(out@) == places.subrange(0, 4 + k),
        decreases 16 - k,
    {
        let file = concat3(variants[k / 4].as_str(), ".", exts[k % 4]);
        let from = join(selection.source_root.as_str(), file.as_str());
        let to = join(selection.to_root.as_str(), file.as_str());
        out.push(ComponentSource { from, to, is_dir: false });
        assert(places.subrange(0, 4 + k + 1) =~= places.subrange(0, 4 + k).push(places[4 + k]));
        assert(source_views(out@) =~= places.subrange(0, 4 + k).push(places[4 + k]));
        k = k + 1;
    }
    assert(places.subrange(0, 20) =~= places);
    out
}

/// Selects and copies UI components of a component node into a workspace.
pub struct ComponentsExecutor<'a> {
    registry: &'a Registry,
}

pub open spec fn opt_views(o: Option<Vec<String>>) -> Option<Seq<Seq<char>>> {
    match o {
        Some(v) => Some(views(v@)),
        None => None,
    }
}

/// The names that a selection may pick from: those of the names schema, or
/// else the node's own list.
pub open spec fn allowed_names(n: Node) -> Seq<Seq<char>> {
    match prereq_rules(n.prerequisites@).1 {
        Some(v) => v,
        None => views(n.meta.names@),
    }
}

/// How a selection turns out: the names it selects, the selection keys
/// that are missing, the names that are not allowed, or why it is invalid.
pub enum SelectionOutcome {
    Selected(Seq<Seq<char>>),
    Missing(Seq<Seq<char>>),
    NotAllowed(Seq<Seq<char>>),
    Invalid(Seq<char>),
}

/// The outcome of a component selection of `mode` with `names` on node `n`,
/// once its required prerequisites are given.
pub open spec fn selection(n: Node, mode: Seq<char>, names: Option<Seq<Seq<char>>>) -> SelectionOutcome {
    let rules = prereq_rules(n.prerequisites@);
    let names_key = seq!["selection.names"@];
    if rules.0 matches Some(modes) && !in_list(modes, mode) {
        SelectionOutcome::Invalid("mode must be one of "@ + joined_with(rules.0->Some_0, "|"@))
    } else if names is None && !rules.2 && (mode == "single"@ || mode == "multiple"@) {
        SelectionOutcome::Missing(names_key)
    } else if mode == "single"@ {
        match names {
            Some(l) => if l.len() != 1 {
                SelectionOutcome::Missing(names_key)
            } else if in_list(allowed_names(n), l[0]) {
                SelectionOutcome::Selected(l)
            } else {
                SelectionOutcome::NotAllowed(l)
            },
            None => SelectionOutcome::Missing(names_key),
        }
    } else if mode == "multiple"@ {
        match names {
            Some(l) => if l.len() == 0 {
                SelectionOutcome::Missing(names_key)
            } else if not_allowed(l, allowed_names(n)).len() == 0 {
                SelectionOutcome::Selected(l)
            } else {
                SelectionOutcome::NotAllowed(not_allowed(l, allowed_names(n)))
            },
            None => SelectionOutcome::Missing(names_key),
        }
    } else if mode == "all"@ {
        if names is None {
            SelectionOutcome::Selected(views(n.meta.names@))
        } else {
            SelectionOutcome::Invalid("names must be omitted for mode all"@)
        }
    } else {
        SelectionOutcome::Invalid("mode must be one of single|multiple|all"@)
    }
}

/// Whether `r` is what a selection with outcome `o` returns.
pub open spec fn selection_reply(r: CoreResult<ComponentSelection>, o: SelectionOutcome, n: Node, write_root: Seq<char>) -> bool {
    match o {
        SelectionOutcome::Selected(sel) => r matches Ok(s) && views(s.names@) == sel && s.to_root@
            == joined(joined(write_root, "entity-auth"@), "components"@) && s.source_root@
            == component_root(n.payload),
        SelectionOutcome::Missing(keys) => r matches Err(CoreError::MissingSelections(v)) && views(v@) == keys,
        SelectionOutcome::NotAllowed(bad) => r matches Err(CoreError::InvalidNames(v)) && views(v@) == bad,
        SelectionOutcome::Invalid(msg) => r matches Err(CoreError::InvalidSelection(m)) && m@ == msg,
    }
}

/// What selecting components of node `node_id` returns: the node must exist
/// and be a component node, the write root must exist and be writable, the
/// required prerequisites must be given, and then the selection decides.
pub open spec fn select_reply(
    r: CoreResult<ComponentSelection>,
    graph: Registry,
    node_id: Seq<char>,
    mode: Seq<char>,
    names: Option<Seq<Seq<char>>>,
    write_root: Seq<char>,
    root_exists: bool,
    root_writable: bool,
) -> bool {
    match graph.node(node_id) {
        None => r matches Err(CoreError::UnknownNode(m)) && m@ == node_id,
        Some(n) => if n.kind != NodeKind::Component {
            r matches Err(CoreError::WrongKind { expected, actual }) && expected@ == "component"@
                && actual@ == kind_label(n.kind)
        } else if !root_exists {
            r matches Err(CoreError::TargetNotFound(m)) && m@ == write_root
        } else if !root_writable {
            r matches Err(CoreError::TargetNotWritable(m)) && m@ == write_root
        } else if other_required(n.prerequisites@).len() > 0 {
            r matches Err(CoreError::MissingSelections(v)) && views(v@) == other_required(n.prerequisites@)
        } else {
            selection_reply(r, selection(n, mode, names), n, write_root)
        },
    }
}

impl<'a> ComponentsExecutor<'a> {
    pub closed spec fn graph(&self) -> Registry {
        *self.registry
    }

    pub fn new(registry: &'a Registry) -> (r: Self)
        ensures
            r.graph() == *registry,
    {
        ComponentsExecutor { registry }
    }

    /// Checks an install request on component node `node_id` and selects
    /// the components to copy into `<write_root>/entity-auth/components`.
    /// `root_exists` and `root_writable` say whether the write root exists
    /// and can be written to.
    pub fn select(
        &self,
        node_id: &str,
        mode: &str,
        names: Option<Vec<String>>,
        write_root: &str,
        root_exists: bool,
        root_writable: bool,
    ) -> (r: CoreResult<ComponentSelection>)
        requires
            self.graph().wf(),
        ensures
            select_reply(r, self.graph(), node_id@, mode@, opt_views(names), write_root@, root_exists, root_writable),
    {
        let node = self.registry.get(node_id)?;
        if node.kind != NodeKind::Component {
            return Err(
                CoreError::WrongKind { expected: "component".to_owned(), actual: node.kind.label().to_owned() },
            );
        }
        if !root_exists {
            return Err(CoreError::TargetNotFound(write_root.to_owned()));
        }
        if !root_writable {
            return Err(CoreError::TargetNotWritable(write_root.to_owned()));
        }
        let missing = missing_required(&node.prerequisites);
        if missing.len() > 0 {
            return Err(CoreError::MissingSelections(missing));
        }
        let (modes, schema_names, names_optional) = parse_prereqs(&node.prerequisites);
        if let Some(m) = &modes {
            if !contains_str(m, mode) {
                proof {
                    if in_list(views(m@), mode@) {
                        let j = choose|j: int| 0 <= j < views(m@).len() && views(m@)[j] == mode@;
                        assert(m@[j]@ == mode@);
                    }
                }
                let allowed = join_with(m, "|");
                return Err(CoreError::InvalidSelection(concat2("mode must be one of ", allowed.as_str())));
            }
            proof {
                let j = choose|j: int| 0 <= j < m@.len() && #[trigger] m@[j]@ == mode@;
                assert(views(m@)[j] == mode@);
            }
        }
        let single = str_eq(mode, "single");
        let multiple = str_eq(mode, "multiple");
        if names.is_none() && !names_optional && (single || multiple) {
            return Err(names_missing());
        }
        let all_names = copy_strings(&node.meta.names);
        let allowed = match schema_names {
            Some(v) => v,
            None => copy_strings(&node.meta.names),
        };
        assert(views(allowed@) == allowed_names(*node));
        let selected = if single {
            let list = match names {
                Some(l) => l,
                None => Vec::new(),
            };
            if list.len() != 1 {
                return Err(names_missing());
            }
            if !contains_str(&allowed, list[0].as_str()) {
                proof {
                    if in_list(views(allowed@), list@[0]@) {
                        let j = choose|j: int| 0 <= j < views(allowed@).len() && views(allowed@)[j] == list@[0]@;
                        assert(allowed@[j]@ == list@[0]@);
                    }
                }
                return Err(CoreError::InvalidNames(list));
            }
            proof {
                let j = choose|j: int| 0 <= j < allowed@.len() && #[trigger] allowed@[j]@ == list@[0]@;
                assert(views(allowed@)[j] == list@[0]@);
            }
            list
        } else if multiple {
            let list = match names {
                Some(l) => l,
                None => Vec::new(),
            };
            if list.len() == 0 {
                return Err(names_missing());
            }
            let invalid = invalid_names(&list, &allowed);
            if invalid.len() > 0 {
                return Err(CoreError::InvalidNames(invalid));
            }
            list
        } else if str_eq(mode, "all") {
            if names.is_some() {
                return Err(CoreError::InvalidSelection("names must be omitted for mode all".to_owned()));
            }
            all_names
        } else {
            return Err(CoreError::InvalidSelection("mode must be one of single|multiple|all".to_owned()));
        };
        let source_root = match &node.payload {
            NodePayload::Component { source_root } => source_root.clone(),
            _ => {
                assert(false);
                String::new()
            },
        };
        let base = join(write_root, "entity-auth");
        let to_root = join(base.as_str(), "components");
        Ok(ComponentSelection { source_root, to_root, names: selected })
    }
}

} // verus!
