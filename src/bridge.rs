use vstd::prelude::*;

use crate::components::{copy_views, CopyItemReport, FileCopy};
use crate::error::{CoreError, CoreResult};
use crate::model::{kind_label, BridgeEnvVar, NodeKind, NodePayload};
use crate::paths::{join, joined, parent, parent_of, set_extension, with_extension};
use crate::registry::{views, Registry};
use crate::text::{concat3, copy_opt, copy_strings, push_char, str_eq};

verus! {

pub open spec fn opt_view(o: Option<String>) -> Option<Seq<char>> {
    match o {
        Some(s) => Some(s@),
        None => None,
    }
}

pub open spec fn opt_str_view(o: Option<&str>) -> Option<Seq<char>> {
    match o {
        Some(s) => Some(s@),
        None => None,
    }
}

/// How to launch a bridge runtime, as resolved from its node.
#[derive(Debug, Clone)]
pub struct BridgeProcessInfo {
    pub entry: String,
    pub args: Vec<String>,
    pub env: Vec<(String, Option<String>)>,
    pub cwd: Option<String>,
    pub config_path: Option<String>,
    pub logs_path: Option<String>,
}

pub struct ProcessInfoView {
    pub entry: Seq<char>,
    pub args: Seq<Seq<char>>,
    pub env: Seq<(Seq<char>, Option<Seq<char>>)>,
    pub cwd: Option<Seq<char>>,
    pub config_path: Option<Seq<char>>,
    pub logs_path: Option<Seq<char>>,
}

impl View for BridgeProcessInfo {
    type V = ProcessInfoView;

    open spec fn view(&self) -> ProcessInfoView {
        ProcessInfoView {
            entry: self.entry@,
            args: views(self.args@),
            env: self.env@.map_values(|e: (String, Option<String>)| (e.0@, opt_view(e.1))),
            cwd: opt_view(self.cwd),
            config_path: opt_view(self.config_path),
            logs_path: opt_view(self.logs_path),
        }
    }
}

/// The launch description kept in a lifecycle record; each variable holds its
/// placeholder value, empty where none was declared.
#[derive(Debug, Clone)]
pub struct BridgeProcessStateProcess {
    pub entry: String,
    pub args: Vec<String>,
    pub env: Vec<(String, String)>,
    pub cwd: Option<String>,
    pub config_path: Option<String>,
}

pub struct ProcessView {
    pub entry: Seq<char>,
    pub args: Seq<Seq<char>>,
    pub env: Seq<(Seq<char>, Seq<char>)>,
    pub cwd: Option<Seq<char>>,
    pub config_path: Option<Seq<char>>,
}

pub open spec fn pair_views(v: Seq<(String, String)>) -> Seq<(Seq<char>, Seq<char>)> {
    v.map_values(|e: (String, String)| (e.0@, e.1@))
}

impl View for BridgeProcessStateProcess {
    type V = ProcessView;

    open spec fn view(&self) -> ProcessView {
        ProcessView {
            entry: self.entry@,
            args: views(self.args@),
            env: pair_views(self.env@),
            cwd: opt_view(self.cwd),
            config_path: opt_view(self.config_path),
        }
    }
}

/// The persisted record of one bridge lifecycle instance.
#[derive(Debug, Clone)]
pub struct BridgeProcessState {
    pub id: String,
    pub node_id: String,
    pub workspace: String,
    pub packs_root: String,
    pub process: BridgeProcessStateProcess,
    pub pid: Option<i32>,
    pub status: String,
    pub status_message: Option<String>,
    pub logs_path: Option<String>,
    pub heartbeat_at: Option<u64>,
    pub exit_code: Option<i32>,
    pub updated_at: u64,
}

pub struct StateView {
    pub id: Seq<char>,
    pub node_id: Seq<char>,
    pub workspace: Seq<char>,
    pub packs_root: Seq<char>,
    pub process: ProcessView,
    pub pid: Option<i32>,
    pub status: Seq<char>,
    pub status_message: Option<Seq<char>>,
    pub logs_path: Option<Seq<char>>,
    pub heartbeat_at: Option<u64>,
    pub exit_code: Option<i32>,
    pub updated_at: u64,
}

impl View for BridgeProcessState {
    type V = StateView;

    open spec fn view(&self) -> StateView {
        StateView {
            id: self.id@,
            node_id: self.node_id@,
            workspace: self.workspace@,
            packs_root: self.packs_root@,
            process: self.process@,
            pid: self.pid,
            status: self.status@,
            status_message: opt_view(self.status_message),
            logs_path: opt_view(self.logs_path),
            heartbeat_at: self.heartbeat_at,
            exit_code: self.exit_code,
            updated_at: self.updated_at,
        }
    }
}

fn copy_pairs(v: &Vec<(String, String)>) -> (r: Vec<(String, String)>)
    ensures
        pair_views(r@) == pair_views(v@),
{
    let mut r: Vec<(String, String)> = Vec::new();
    let mut i: usize = 0;
    while i < v.len()
        invariant
            i <= v.len(),
            pair_views(r@) == pair_views(v@.subrange(0, i as int)),
        decreases v.len() - i,
    {
        r.push((v[i].0.clone(), v[i].1.clone()));
        assert(pair_views(v@.subrange(0, i + 1)) =~= pair_views(v@.subrange(0, i as int)).push(
            (v@[i as int].0@, v@[i as int].1@),
        ));
        assert(pair_views(r@) =~= pair_views(v@.subrange(0, i as int)).push(
            (v@[i as int].0@, v@[i as int].1@),
        ));
        i = i + 1;
    }
    assert(v@.subrange(0, v.len() as int) =~= v@);
    r
}

impl BridgeProcessState {
    /// A record equal to this one.
    pub fn copy(&self) -> (r: BridgeProcessState)
        ensures
            r@ == self@,
    {
        BridgeProcessState {
            id: self.id.clone(),
            node_id: self.node_id.clone(),
            workspace: self.workspace.clone(),
            packs_root: self.packs_root.clone(),
            process: BridgeProcessStateProcess {
                entry: self.process.entry.clone(),
                args: copy_strings(&self.process.args),
                env: copy_pairs(&self.process.env),
                cwd: copy_opt(&self.process.cwd),
                config_path: copy_opt(&self.process.config_path),
            },
            pid: self.pid,
            status: self.status.clone(),
            status_message: copy_opt(&self.status_message),
            logs_path: copy_opt(&self.logs_path),
            heartbeat_at: self.heartbeat_at,
            exit_code: self.exit_code,
            updated_at: self.updated_at,
        }
    }
}

/// What `stop` reports: the pid that was signalled, if any, and the id of the
/// lifecycle that ended.
#[derive(Debug, Clone)]
pub struct BridgeStopResult {
    pub pid: Option<i32>,
    pub status: String,
    pub state_id: String,
}

/// What scaffolding copied, with notes for the caller.
#[derive(Debug, Clone)]
pub struct BridgeScaffoldReport {
    pub copied: Vec<CopyItemReport>,
    pub notes: Vec<String>,
}

/// The files that scaffolding copies, and the report of it.
#[derive(Debug, Clone)]
pub struct BridgeScaffoldPlan {
    pub copies: Vec<FileCopy>,
    pub report: BridgeScaffoldReport,
}

/// The lifecycle records of a state directory, one per state file path.
#[derive(Debug, Clone)]
pub struct StateStore {
    files: Vec<(String, BridgeProcessState)>,
}

impl View for StateStore {
    type V = Map<Seq<char>, StateView>;

    closed spec fn view(&self) -> Map<Seq<char>, StateView> {
        Map::new(
            |k: Seq<char>| exists|i: int| 0 <= i < self.files.len() && (#[trigger] self.files@[i]).0@ == k,
            |k: Seq<char>|
                self.files@[choose|i: int|
                    0 <= i < self.files.len() && (#[trigger] self.files@[i]).0@ == k].1@,
        )
    }
}

impl StateStore {
    pub closed spec fn wf(&self) -> bool {
        forall|i: int, j: int|
            0 <= i < j < self.files.len() ==> (#[trigger] self.files@[i]).0@ != (
            #[trigger] self.files@[j]).0@
    }

    /// A store with no record.
    pub fn new() -> (r: StateStore)
        ensures
            r.wf(),
            r@ == Map::<Seq<char>, StateView>::empty(),
    {
        let r = StateStore { files: Vec::new() };
        assert(r@ =~= Map::<Seq<char>, StateView>::empty());
        r
    }

    fn position(&self, path: &str) -> (r: Option<usize>)
        ensures
            r matches Some(i) ==> i < self.files.len() && self.files@[i as int].0@ == path@,
            r is None ==> forall|j: int| 0 <= j < self.files.len() ==> (#[trigger] self.files@[j]).0@ != path@,
    {
        let mut i: usize = 0;
        while i < self.files.len()
            invariant
                i <= self.files.len(),
                forall|j: int| 0 <= j < i ==> (#[trigger] self.files@[j]).0@ != path@,
            decreases self.files.len() - i,
        {
            if str_eq(self.files[i].0.as_str(), path) {
                return Some(i);
            }
            i = i + 1;
        }
        None
    }

    /// The record kept at `path`.
    pub fn get(&self, path: &str) -> (r: Option<&BridgeProcessState>)
        requires
            self.wf(),
        ensures
            r is None <==> !self@.contains_key(path@),
            r matches Some(s) ==> s@ == self@[path@],
    {
        match self.position(path) {
            Some(i) => {
                let ghost j = choose|j: int| 0 <= j < self.files.len() && (#[trigger] self.files@[j]).0@ == path@;
                assert(j == i);
                Some(&self.files[i].1)
            },
            None => None,
        }
    }

    /// Takes the record kept at `path` out of the store.
    pub fn take(&mut self, path: &str) -> (r: Option<BridgeProcessState>)
        requires
            old(self).wf(),
        ensures
            final(self).wf(),
            r is None <==> !old(self)@.contains_key(path@),
            r matches Some(s) ==> s@ == old(self)@[path@],
            final(self)@ == old(self)@.remove(path@),
    {
        match self.position(path) {
            Some(i) => {
                let ghost g0 = self.files@;
                let ghost ci = choose|j: int| 0 <= j < g0.len() && (#[trigger] g0[j]).0@ == path@;
                assert(ci == i);
                let (_, s) = self.files.remove(i);
                assert forall|a: int, b: int|
                    0 <= a < b < self.files.len() implies (#[trigger] self.files@[a]).0@ != (
                    #[trigger] self.files@[b]).0@ by {
                    let a0 = if a < i { a } else { a + 1 };
                    let b0 = if b < i { b } else { b + 1 };
                    assert(self.files@[a] == g0[a0]);
                    assert(self.files@[b] == g0[b0]);
                }
                assert forall|k: Seq<char>| #[trigger] self@.contains_key(k) implies old(self)@.remove(path@).contains_key(k) by {
                    let j = choose|j: int| 0 <= j < self.files.len() && (#[trigger] self.files@[j]).0@ == k;
                    let j0 = if j < i { j } else { j + 1 };
                    assert(g0[j0].0@ == k);
                }
                assert forall|k: Seq<char>| #[trigger] old(self)@.remove(path@).contains_key(k) implies self@.contains_key(k) && self@[k] == old(self)@[k] by {
                    let j0 = choose|j0: int| 0 <= j0 < g0.len() && (#[trigger] g0[j0]).0@ == k;
                    assert(j0 != i);
                    let j = if j0 < i { j0 } else { j0 - 1 };
                    assert(self.files@[j] == g0[j0]);
                    let j2 = choose|j2: int| 0 <= j2 < self.files.len() && (#[trigger] self.files@[j2]).0@ == k;
                    assert(j2 == j);
                }
                assert(self@ =~= old(self)@.remove(path@));
                Some(s)
            },
            None => {
                assert(self@ =~= old(self)@.remove(path@));
                None
            },
        }
    }

    /// Keeps `state` at `path`, replacing what was there.
    pub fn put(&mut self, path: String, state: BridgeProcessState)
        requires
            old(self).wf(),
        ensures
            final(self).wf(),
            final(self)@ == old(self)@.insert(path@, state@),
    {
        let _ = self.take(path.as_str());
        let ghost g0 = self.files@;
        let ghost m0 = self@;
        let ghost p = path@;
        let ghost sv = state@;
        self.files.push((path, state));
        let n = self.files.len() - 1;
        assert(!m0.contains_key(p));
        assert forall|a: int, b: int|
            0 <= a < b < self.files.len() implies (#[trigger] self.files@[a]).0@ != (
            #[trigger] self.files@[b]).0@ by {
            if b == n {
                assert(g0[a].0@ != p);
            }
        }
        assert forall|k: Seq<char>| #[trigger] self@.contains_key(k) && k != p implies m0.contains_key(k) && self@[k] == m0[k] by {
            let j = choose|j: int| 0 <= j < self.files.len() && (#[trigger] self.files@[j]).0@ == k;
            assert(j < n);
            assert(g0[j].0@ == k);
            let j0 = choose|j0: int| 0 <= j0 < g0.len() && (#[trigger] g0[j0]).0@ == k;
            assert(self.files@[j0] == g0[j0]);
        }
        assert forall|k: Seq<char>| #[trigger] m0.contains_key(k) implies self@.contains_key(k) by {
            let j = choose|j: int| 0 <= j < g0.len() && (#[trigger] g0[j]).0@ == k;
            assert(self.files@[j].0@ == k);
        }
        assert(self.files@[n as int].0@ == p);
        let ghost jk = choose|j: int| 0 <= j < self.files.len() && (#[trigger] self.files@[j]).0@ == p;
        assert(jk == n);
        assert(self@.contains_key(p));
        assert(self@[p] == sv);
        assert(m0 == old(self)@.remove(p));
        assert forall|k: Seq<char>| #[trigger] old(self)@.insert(p, sv).contains_key(k) implies self@.contains_key(k) by {
            if k != p {
                assert(m0.contains_key(k));
            }
        }
        assert(self@ =~= old(self)@.insert(p, sv));
    }
}

pub open spec fn is_ascii_alnum(c: char) -> bool {
    ('0' <= c && c <= '9') || ('a' <= c && c <= 'z') || ('A' <= c && c <= 'Z')
}

/// A node id with every character that is not an ASCII letter or digit
/// replaced by `_`.
pub open spec fn safe_name(s: Seq<char>) -> Seq<char> {
    Seq::new(s.len(), |i: int| if is_ascii_alnum(s[i]) { s[i] } else { '_' })
}

/// The directory of a workspace that holds the lifecycle records.
pub open spec fn state_dir_of(ws: Seq<char>) -> Seq<char> {
    joined(joined(joined(ws, ".entitycli"@), "bridge"@), "state"@)
}

/// The file that holds the lifecycle record of a node in a workspace.
pub open spec fn state_file_of(ws: Seq<char>, node_id: Seq<char>) -> Seq<char> {
    with_extension(joined(state_dir_of(ws), safe_name(node_id)), "json"@)
}

pub open spec fn env_view(v: Seq<BridgeEnvVar>) -> Seq<(Seq<char>, Option<Seq<char>>)> {
    v.map_values(|e: BridgeEnvVar| (e.key@, opt_view(e.default)))
}

/// The launch description that a bridge payload gives: its runner, which
/// wins, or else its spawn descriptor.
pub open spec fn descriptor(p: NodePayload) -> Option<ProcessInfoView> {
    match p {
        NodePayload::Bridge { runner, spawn, config_template, logs_path, .. } => match runner {
            Some(r) => Some(
                ProcessInfoView {
                    entry: r@,
                    args: Seq::empty(),
                    env: Seq::empty(),
                    cwd: parent_of(r@),
                    config_path: opt_view(config_template),
                    logs_path: opt_view(logs_path),
                },
            ),
            None => match spawn {
                Some(d) => Some(
                    ProcessInfoView {
                        entry: d.entry@,
                        args: views(d.args@),
                        env: env_view(d.env@),
                        cwd: opt_view(d.cwd),
                        config_path: opt_view(config_template),
                        logs_path: opt_view(logs_path),
                    },
                ),
                None => None,
            },
        },
        _ => None,
    }
}

pub open spec fn value_or_empty(o: Option<Seq<char>>) -> Seq<char> {
    match o {
        Some(s) => s,
        None => Seq::empty(),
    }
}

/// The record that `start` writes: pending, with no pid, heartbeat or exit code.
pub open spec fn fresh_state(
    node_id: Seq<char>,
    info: ProcessInfoView,
    ws: Seq<char>,
    packs: Seq<char>,
    id: Seq<char>,
    now: u64,
) -> StateView {
    StateView {
        id,
        node_id,
        workspace: ws,
        packs_root: packs,
        process: ProcessView {
            entry: info.entry,
            args: info.args,
            env: info.env.map_values(|e: (Seq<char>, Option<Seq<char>>)| (e.0, value_or_empty(e.1))),
            cwd: info.cwd,
            config_path: info.config_path,
        },
        pid: None,
        status: "pending"@,
        status_message: None,
        logs_path: info.logs_path,
        heartbeat_at: None,
        exit_code: None,
        updated_at: now,
    }
}

/// What a read of the records `m` returns for `node_id` in `ws` at `now`.
pub open spec fn read_reply(
    r: Option<BridgeProcessState>,
    m: Map<Seq<char>, StateView>,
    ws: Seq<char>,
    node_id: Seq<char>,
    now: u64,
) -> bool {
    match m.get(state_file_of(ws, node_id)) {
        None => r is None,
        Some(s) => r matches Some(x) && x@ == refreshed(s, now),
    }
}

/// A record as a read observes it at time `now`.
pub open spec fn refreshed(s: StateView, now: u64) -> StateView {
    StateView { updated_at: now, ..s }
}

/// The template root of a bridge payload.
pub open spec fn template_of(p: NodePayload) -> Option<Seq<char>> {
    match p {
        NodePayload::Bridge { template_root, .. } => opt_view(template_root),
        _ => None,
    }
}

/// The directory of a workspace that scaffolding writes into.
pub open spec fn scaffold_target(ws: Seq<char>) -> Seq<char> {
    joined(ws, "entity-auth"@)
}

/// The copies that bring each file of `files` (paths relative to `root`)
/// to the same relative path under `to_root`.
pub open spec fn planned_copies(root: Seq<char>, to_root: Seq<char>, files: Seq<Seq<char>>) -> Seq<
    (Seq<char>, Seq<char>),
> {
    files.map_values(|f: Seq<char>| (joined(root, f), joined(to_root, f)))
}

/// The checks that precede scaffolding: the node exists, is a bridge, and the
/// workspace exists.
pub open spec fn scaffold_checks<T>(n: Option<crate::model::Node>, node_id: Seq<char>, ws: Seq<char>, ws_exists: bool, r: CoreResult<T>) -> bool {
    match n {
        None => r matches Err(CoreError::UnknownNode(m)) && m@ == node_id,
        Some(n) => if n.kind != NodeKind::Bridge {
            r matches Err(CoreError::WrongKind { expected, actual }) && expected@ == "bridge"@
                && actual@ == kind_label(n.kind)
        } else if !ws_exists {
            r matches Err(CoreError::TargetNotFound(m)) && m@ == ws
        } else {
            true
        },
    }
}

pub open spec fn passes_checks(n: Option<crate::model::Node>, ws_exists: bool) -> bool {
    n matches Some(n) && n.kind == NodeKind::Bridge && ws_exists
}

/// What describing how to launch node `node_id` returns.
pub open spec fn resolve_reply(r: CoreResult<BridgeProcessInfo>, graph: Registry, node_id: Seq<char>) -> bool {
    match graph.node(node_id) {
        None => r matches Err(CoreError::UnknownNode(m)) && m@ == node_id,
        Some(n) => if n.kind != NodeKind::Bridge {
            r matches Err(CoreError::WrongKind { expected, actual }) && expected@ == "bridge"@
                && actual@ == kind_label(n.kind)
        } else {
            match descriptor(n.payload) {
                Some(d) => r matches Ok(info) && info@ == d,
                None => r matches Err(CoreError::InvalidDescriptor(m)) && m@ == "bridge node "@
                    + node_id + " missing runner or spawn descriptor"@,
            }
        },
    }
}

/// A field-level change to a lifecycle record.
#[derive(Debug, Clone, Copy)]
pub enum StateChange<'a> {
    /// Binds a process: sets the pid, the status (`running` by default) and
    /// the message (cleared when absent), and clears the exit code.
    Attach { pid: i32, status: Option<&'a str>, status_message: Option<&'a str> },
    /// Records liveness: status and message change only where given.
    Heartbeat { status: Option<&'a str>, status_message: Option<&'a str> },
    /// Records the end of the process: clears the pid, sets the exit code, the
    /// status (`exited` by default) and the message (cleared when absent).
    Complete { exit_code: Option<i32>, status: Option<&'a str>, status_message: Option<&'a str> },
}

/// A field-level change, over the text it carries.
pub enum ChangeView {
    Attach { pid: i32, status: Option<Seq<char>>, status_message: Option<Seq<char>> },
    Heartbeat { status: Option<Seq<char>>, status_message: Option<Seq<char>> },
    Complete { exit_code: Option<i32>, status: Option<Seq<char>>, status_message: Option<Seq<char>> },
}

pub open spec fn change_view(c: StateChange) -> ChangeView {
    match c {
        StateChange::Attach { pid, status, status_message } => ChangeView::Attach {
            pid,
            status: opt_str_view(status),
            status_message: opt_str_view(status_message),
        },
        StateChange::Heartbeat { status, status_message } => ChangeView::Heartbeat {
            status: opt_str_view(status),
            status_message: opt_str_view(status_message),
        },
        StateChange::Complete { exit_code, status, status_message } => ChangeView::Complete {
            exit_code,
            status: opt_str_view(status),
            status_message: opt_str_view(status_message),
        },
    }
}

/// The record after change `c` at time `now`.
pub open spec fn applied(s: StateView, c: ChangeView, now: u64) -> StateView {
    match c {
        ChangeView::Attach { pid, status, status_message } => StateView {
            pid: Some(pid),
            status: match status {
                Some(st) => st,
                None => "running"@,
            },
            status_message,
            heartbeat_at: Some(now),
            exit_code: None,
            updated_at: now,
            ..s
        },
        ChangeView::Heartbeat { status, status_message } => StateView {
            status: match status {
                Some(st) => st,
                None => s.status,
            },
            status_message: match status_message {
                Some(m) => Some(m),
                None => s.status_message,
            },
            heartbeat_at: Some(now),
            updated_at: now,
            ..s
        },
        ChangeView::Complete { exit_code, status, status_message } => StateView {
            pid: None,
            exit_code,
            status: match status {
                Some(st) => st,
                None => "exited"@,
            },
            status_message,
            heartbeat_at: Some(now),
            updated_at: now,
            ..s
        },
    }
}

/// The record after `c` is applied at time `now`.
pub open spec fn changed(s: StateView, c: StateChange, now: u64) -> StateView {
    applied(s, change_view(c), now)
}

fn opt_owned(o: Option<&str>) -> (r: Option<String>)
    ensures
        opt_view(r) == opt_str_view(o),
{
    match o {
        Some(s) => Some(s.to_owned()),
        None => None,
    }
}

fn copy_env(v: &Vec<BridgeEnvVar>) -> (r: Vec<(String, Option<String>)>)
    ensures
        r@.map_values(|e: (String, Option<String>)| (e.0@, opt_view(e.1))) == env_view(v@),
{
    let mut r: Vec<(String, Option<String>)> = Vec::new();
    let mut i: usize = 0;
    while i < v.len()
        invariant
            i <= v.len(),
            r@.map_values(|e: (String, Option<String>)| (e.0@, opt_view(e.1))) == env_view(
                v@.subrange(0, i as int),
            ),
        decreases v.len() - i,
    {
        r.push((v[i].key.clone(), copy_opt(&v[i].default)));
        assert(env_view(v@.subrange(0, i + 1)) =~= env_view(v@.subrange(0, i as int)).push(
            (v@[i as int].key@, opt_view(v@[i as int].default)),
        ));
        assert(r@.map_values(|e: (String, Option<String>)| (e.0@, opt_view(e.1))) =~= env_view(
            v@.subrange(0, i as int),
        ).push((v@[i as int].key@, opt_view(v@[i as int].default))));
        i = i + 1;
    }
    assert(v@.subrange(0, v.len() as int) =~= v@);
    r
}

fn env_with_defaults(v: Vec<(String, Option<String>)>) -> (r: Vec<(String, String)>)
    ensures
        pair_views(r@) == v@.map_values(|e: (String, Option<String>)| (e.0@, opt_view(e.1))).map_values(
            |e: (Seq<char>, Option<Seq<char>>)| (e.0, value_or_empty(e.1)),
        ),
{
    let ghost src = v@;
    let n = v.len();
    let mut v = v;
    let mut r: Vec<(String, String)> = Vec::new();
    let mut i: usize = 0;
    while v.len() > 0
        invariant
            i + v@.len() == src.len(),
            src.len() == n,
            v@ == src.subrange(i as int, src.len() as int),
            pair_views(r@) == src.subrange(0, i as int).map_values(
                |e: (String, Option<String>)| (e.0@, opt_view(e.1)),
            ).map_values(|e: (Seq<char>, Option<Seq<char>>)| (e.0, value_or_empty(e.1))),
        decreases v@.len(),
    {
        let (key, default) = v.remove(0);
        let value = match default {
            Some(d) => d,
            None => String::new(),
        };
        r.push((key, value));
        assert(src.subrange(0, i + 1).map_values(
            |e: (String, Option<String>)| (e.0@, opt_view(e.1)),
        ).map_values(|e: (Seq<char>, Option<Seq<char>>)| (e.0, value_or_empty(e.1))) =~= src.subrange(
            0,
            i as int,
        ).map_values(|e: (String, Option<String>)| (e.0@, opt_view(e.1))).map_values(
            |e: (Seq<char>, Option<Seq<char>>)| (e.0, value_or_empty(e.1)),
        ).push((src[i as int].0@, value_or_empty(opt_view(src[i as int].1)))));
        assert(pair_views(r@) =~= src.subrange(0, i as int).map_values(
            |e: (String, Option<String>)| (e.0@, opt_view(e.1)),
        ).map_values(|e: (Seq<char>, Option<Seq<char>>)| (e.0, value_or_empty(e.1))).push(
            (src[i as int].0@, value_or_empty(opt_view(src[i as int].1))),
        ));
        i = i + 1;
    }
    assert(src.subrange(0, src.len() as int) =~= src);
    r
}

/// Describes, scaffolds and tracks the lifecycle of bridge runtimes.
pub struct BridgeExecutor<'a> {
    registry: &'a Registry,
}

impl<'a> BridgeExecutor<'a> {
    /// The registry that nodes are resolved in.
    pub closed spec fn graph(&self) -> Registry {
        *self.registry
    }

    pub fn new(registry: &'a Registry) -> (r: Self)
        ensures
            r.graph() == *registry,
    {
        BridgeExecutor { registry }
    }

    /// The launch description of bridge node `node_id`: its runner, with no
    /// arguments or variables and its parent directory as working directory,
    /// or else its spawn descriptor as declared; both with the node's config
    /// template and logs path.
    pub fn spawn_descriptor(&self, node_id: &str) -> (r: CoreResult<BridgeProcessInfo>)
        requires
            self.graph().wf(),
        ensures
            resolve_reply(r, self.graph(), node_id@),
    {
        let node = self.registry.get(node_id)?;
        if node.kind != NodeKind::Bridge {
            return Err(
                CoreError::WrongKind { expected: "bridge".to_owned(), actual: node.kind.label().to_owned() },
            );
        }
        match &node.payload {
            NodePayload::Bridge { runner, spawn, config_template, logs_path, .. } => {
                if let Some(runner_path) = runner {
                    let args: Vec<String> = Vec::new();
                    let env: Vec<(String, Option<String>)> = Vec::new();
                    assert(views(args@) =~= Seq::<Seq<char>>::empty());
                    assert(env@.map_values(|e: (String, Option<String>)| (e.0@, opt_view(e.1)))
                        =~= Seq::<(Seq<char>, Option<Seq<char>>)>::empty());
                    return Ok(
                        BridgeProcessInfo {
                            entry: runner_path.clone(),
                            args,
                            env,
                            cwd: parent(runner_path.as_str()),
                            config_path: copy_opt(config_template),
                            logs_path: copy_opt(logs_path),
                        },
                    );
                }
                if let Some(d) = spawn {
                    return Ok(
                        BridgeProcessInfo {
                            entry: d.entry.clone(),
                            args: copy_strings(&d.args),
                            env: copy_env(&d.env),
                            cwd: copy_opt(&d.cwd),
                            config_path: copy_opt(config_template),
                            logs_path: copy_opt(logs_path),
                        },
                    );
                }
                Err(
                    CoreError::InvalidDescriptor(
                        concat3("bridge node ", node.id.as_str(), " missing runner or spawn descriptor"),
                    ),
                )
            },
            _ => {
                assert(false);
                Err(CoreError::InvalidDescriptor(node.id.clone()))
            },
        }
    }

    /// The directory of `workspace` that holds the lifecycle records.
    pub fn state_dir(workspace: &str) -> (r: String)
        ensures
            r@ == state_dir_of(workspace@),
    {
        let a = join(workspace, ".entitycli");
        let b = join(a.as_str(), "bridge");
        join(b.as_str(), "state")
    }

    /// The file of `workspace` that holds the lifecycle record of `node_id`.
    pub fn state_file(workspace: &str, node_id: &str) -> (r: String)
        ensures
            r@ == state_file_of(workspace@, node_id@),
    {
        let dir = Self::state_dir(workspace);
        let name = Self::safe_node_filename(node_id);
        let file = join(dir.as_str(), name.as_str());
        proof {
            reveal_strlit("json");
        }
        set_extension(file.as_str(), "json")
    }

    /// `node_id` with each character that is not an ASCII letter or digit
    /// replaced by `_`.
    pub fn safe_node_filename(node_id: &str) -> (r: String)
        ensures
            r@ == safe_name(node_id@),
    {
        let n = node_id.unicode_len();
        let mut out = String::new();
        let mut i: usize = 0;
        while i < n
            invariant
                n == node_id@.len(),
                i <= n,
                out@ == safe_name(node_id@).subrange(0, i as int),
            decreases n - i,
        {
            let c = node_id.get_char(i);
            let alnum = ('0' <= c && c <= '9') || ('a' <= c && c <= 'z') || ('A' <= c && c <= 'Z');
            if alnum {
                push_char(&mut out, c);
            } else {
                push_char(&mut out, '_');
            }
            assert(safe_name(node_id@).subrange(0, i + 1) =~= safe_name(node_id@).subrange(0, i as int).push(
                safe_name(node_id@)[i as int],
            ));
            i = i + 1;
        }
        assert(safe_name(node_id@).subrange(0, n as int) =~= safe_name(node_id@));
        out
    }

    /// Writes a fresh lifecycle record for `node_id` in `workspace`, replacing
    /// any record already there: status `pending`, no pid, heartbeat or exit
    /// code, and the launch description of `process` with each variable's
    /// placeholder (empty where none was declared).
    pub fn persist_state(
        &self,
        store: &mut StateStore,
        node_id: &str,
        process: BridgeProcessInfo,
        workspace: &str,
        packs: &str,
        state_id: &str,
        now: u64,
    )
        requires
            old(store).wf(),
        ensures
            final(store).wf(),
            final(store)@ == old(store)@.insert(
                state_file_of(workspace@, node_id@),
                fresh_state(node_id@, process@, workspace@, packs@, state_id@, now),
            ),
    {
        let ghost info = process@;
        let state = BridgeProcessState {
            id: state_id.to_owned(),
            node_id: node_id.to_owned(),
            workspace: workspace.to_owned(),
            packs_root: packs.to_owned(),
            process: BridgeProcessStateProcess {
                entry: process.entry,
                args: process.args,
                env: env_with_defaults(process.env),
                cwd: process.cwd,
                config_path: process.config_path,
            },
            pid: None,
            status: "pending".to_owned(),
            status_message: None,
            logs_path: process.logs_path,
            heartbeat_at: None,
            exit_code: None,
            updated_at: now,
        };
        assert(state@ == fresh_state(node_id@, info, workspace@, packs@, state_id@, now));
        store.put(Self::state_file(workspace, node_id), state);
    }

    /// The record of `node_id` in `workspace`, as observed at time `now`; the
    /// store keeps it unchanged.
    pub fn read_state(store: &StateStore, workspace: &str, node_id: &str, now: u64) -> (r: Option<
        BridgeProcessState,
    >)
        requires
            store.wf(),
        ensures
            read_reply(r, store@, workspace@, node_id@, now),
    {
        let file = Self::state_file(workspace, node_id);
        match store.get(file.as_str()) {
            Some(s) => {
                let mut state = s.copy();
                state.updated_at = now;
                Some(state)
            },
            None => None,
        }
    }

    /// Applies `change` to the record of `node_id` in `workspace`, stamps it
    /// with `now`, keeps it and returns it; nothing where there is no record.
    pub fn update_state(
        store: &mut StateStore,
        workspace: &str,
        node_id: &str,
        change: StateChange,
        now: u64,
    ) -> (r: Option<BridgeProcessState>)
        requires
            old(store).wf(),
        ensures
            final(store).wf(),
            match old(store)@.get(state_file_of(workspace@, node_id@)) {
                None => r is None && final(store)@ == old(store)@,
                Some(s) => r matches Some(x) && x@ == changed(s, change, now) && final(store)@
                    == old(store)@.insert(state_file_of(workspace@, node_id@), x@),
            },
    {
        let file = Self::state_file(workspace, node_id);
        let taken = store.take(file.as_str());
        match taken {
            None => {
                assert(store@ =~= old(store)@);
                None
            },
            Some(mut state) => {
                match change {
                    StateChange::Attach { pid, status, status_message } => {
                        state.pid = Some(pid);
                        state.status = match status {
                            Some(st) => st.to_owned(),
                            None => "running".to_owned(),
                        };
                        state.status_message = opt_owned(status_message);
                        state.heartbeat_at = Some(now);
                        state.exit_code = None;
                    },
                    StateChange::Heartbeat { status, status_message } => {
                        if let Some(st) = status {
                            state.status = st.to_owned();
                        }
                        if let Some(m) = status_message {
                            state.status_message = Some(m.to_owned());
                        }
                        state.heartbeat_at = Some(now);
                    },
                    StateChange::Complete { exit_code, status, status_message } => {
                        state.pid = None;
                        state.exit_code = exit_code;
                        state.status = match status {
                            Some(st) => st.to_owned(),
                            None => "exited".to_owned(),
                        };
                        state.status_message = opt_owned(status_message);
                        state.heartbeat_at = Some(now);
                    },
                }
                state.updated_at = now;
                let result = state.copy();
                store.put(file, state);
                assert(store@ =~= old(store)@.insert(state_file_of(workspace@, node_id@), result@));
                Some(result)
            },
        }
    }

    /// Deletes the record of `node_id` in `workspace`, if there is one.
    pub fn remove_state(store: &mut StateStore, workspace: &str, node_id: &str)
        requires
            old(store).wf(),
        ensures
            final(store).wf(),
            final(store)@ == old(store)@.remove(state_file_of(workspace@, node_id@)),
    {
        let file = Self::state_file(workspace, node_id);
        let _ = store.take(file.as_str());
    }

    /// Binds process `pid` to the record of `node_id`: status `status` or
    /// `running`, message `status_message` (cleared when absent), heartbeat
    /// `now`, no exit code.
    pub fn attach_pid(
        store: &mut StateStore,
        workspace: &str,
        node_id: &str,
        pid: i32,
        status: Option<&str>,
        status_message: Option<&str>,
        now: u64,
    ) -> (r: Option<BridgeProcessState>)
        requires
            old(store).wf(),
        ensures
            final(store).wf(),
            match old(store)@.get(state_file_of(workspace@, node_id@)) {
                None => r is None && final(store)@ == old(store)@,
                Some(s) => r matches Some(x) && x@ == changed(
                    s,
                    StateChange::Attach { pid, status, status_message },
                    now,
                ) && final(store)@ == old(store)@.insert(state_file_of(workspace@, node_id@), x@),
            },
    {
        Self::update_state(store, workspace, node_id, StateChange::Attach { pid, status, status_message }, now)
    }

    /// Records that the bridge of `node_id` is alive at `now`; status and
    /// message change only where given.
    pub fn heartbeat(
        store: &mut StateStore,
        workspace: &str,
        node_id: &str,
        status: Option<&str>,
        status_message: Option<&str>,
        now: u64,
    ) -> (r: Option<BridgeProcessState>)
        requires
            old(store).wf(),
        ensures
            final(store).wf(),
            match old(store)@.get(state_file_of(workspace@, node_id@)) {
                None => r is None && final(store)@ == old(store)@,
                Some(s) => r matches Some(x) && x@ == changed(
                    s,
                    StateChange::Heartbeat { status, status_message },
                    now,
                ) && final(store)@ == old(store)@.insert(state_file_of(workspace@, node_id@), x@),
            },
    {
        Self::update_state(store, workspace, node_id, StateChange::Heartbeat { status, status_message }, now)
    }

    /// Records that the process of `node_id` ended: no pid, exit code
    /// `exit_code`, status `status` or `exited`, message `status_message`
    /// (cleared when absent), heartbeat `now`.
    pub fn complete(
        store: &mut StateStore,
        workspace: &str,
        node_id: &str,
        exit_code: Option<i32>,
        status: Option<&str>,
        status_message: Option<&str>,
        now: u64,
    ) -> (r: Option<BridgeProcessState>)
        requires
            old(store).wf(),
        ensures
            final(store).wf(),
            match old(store)@.get(state_file_of(workspace@, node_id@)) {
                None => r is None && final(store)@ == old(store)@,
                Some(s) => r matches Some(x) && x@ == changed(
                    s,
                    StateChange::Complete { exit_code, status, status_message },
                    now,
                ) && final(store)@ == old(store)@.insert(state_file_of(workspace@, node_id@), x@),
            },
    {
        Self::update_state(
            store,
            workspace,
            node_id,
            StateChange::Complete { exit_code, status, status_message },
            now,
        )
    }

    /// Ends the lifecycle of `node_id`: deletes its record and reports the pid
    /// to signal and the id of the lifecycle; nothing where there is no record.
    pub fn stop(store: &mut StateStore, workspace: &str, node_id: &str) -> (r: Option<
        BridgeStopResult,
    >)
        requires
            old(store).wf(),
        ensures
            final(store).wf(),
            final(store)@ == old(store)@.remove(state_file_of(workspace@, node_id@)),
            match old(store)@.get(state_file_of(workspace@, node_id@)) {
                None => r is None,
                Some(s) => r matches Some(x) && x.pid == s.pid && x.status@ == "stopped"@
                    && x.state_id@ == s.id,
            },
    {
        let file = Self::state_file(workspace, node_id);
        match store.take(file.as_str()) {
            None => None,
            Some(state) => Some(
                BridgeStopResult { pid: state.pid, status: "stopped".to_owned(), state_id: state.id },
            ),
        }
    }


    /// The template root that scaffolding `node_id` copies from, after the
    /// same checks as `scaffold`.
    pub fn scaffold_source(&self, node_id: &str, workspace: &str, workspace_exists: bool) -> (r:
        CoreResult<Option<String>>)
        requires
            self.graph().wf(),
        ensures
            scaffold_checks(self.graph().node(node_id@), node_id@, workspace@, workspace_exists, r),
            passes_checks(self.graph().node(node_id@), workspace_exists) ==> (r matches Ok(t)
                && opt_view(t) == template_of(self.graph().node(node_id@)->Some_0.payload)),
    {
        let node = self.registry.get(node_id)?;
        if node.kind != NodeKind::Bridge {
            return Err(
                CoreError::WrongKind { expected: "bridge".to_owned(), actual: node.kind.label().to_owned() },
            );
        }
        if !workspace_exists {
            return Err(CoreError::TargetNotFound(workspace.to_owned()));
        }
        match &node.payload {
            NodePayload::Bridge { template_root, .. } => Ok(copy_opt(template_root)),
            _ => Ok(None),
        }
    }

    /// Plans copying the template tree of bridge `node_id` into
    /// `<workspace>/entity-auth`, keeping relative paths and overwriting.
    /// `template_files` lists the regular files under the template root,
    /// relative to it, or is `None` where the root does not exist. A bridge
    /// without template root gives an empty plan.
    pub fn scaffold(
        &self,
        node_id: &str,
        workspace: &str,
        workspace_exists: bool,
        template_files: Option<&Vec<String>>,
    ) -> (r: CoreResult<BridgeScaffoldPlan>)
        requires
            self.graph().wf(),
        ensures
            scaffold_checks(self.graph().node(node_id@), node_id@, workspace@, workspace_exists, r),
            passes_checks(self.graph().node(node_id@), workspace_exists) ==> match template_of(
                self.graph().node(node_id@)->Some_0.payload,
            ) {
                None => r matches Ok(p) && p.copies@.len() == 0 && p.report.copied@.len() == 0
                    && p.report.notes@.len() == 0,
                Some(root) => match template_files {
                    None => r matches Err(CoreError::MissingSource(m)) && m@ == root,
                    Some(files) => r matches Ok(p) && copy_views(p.copies@) == planned_copies(
                        root,
                        scaffold_target(workspace@),
                        views(files@),
                    ) && p.report.copied@.len() == 1 && p.report.copied@[0].from@ == root
                        && p.report.copied@[0].to@ == scaffold_target(workspace@)
                        && p.report.copied@[0].count == files@.len() && views(p.report.notes@)
                        == seq!["Overwrite-on-write by default"@],
                },
            },
    {
        let root = match self.scaffold_source(node_id, workspace, workspace_exists)? {
            None => {
                return Ok(
                    BridgeScaffoldPlan {
                        copies: Vec::new(),
                        report: BridgeScaffoldReport { copied: Vec::new(), notes: Vec::new() },
                    },
                );
            },
            Some(root) => root,
        };
        let files = match template_files {
            None => {
                return Err(CoreError::MissingSource(root));
            },
            Some(files) => files,
        };
        let to_root = join(workspace, "entity-auth");
        let mut copies: Vec<FileCopy> = Vec::new();
        let mut i: usize = 0;
        while i < files.len()
            invariant
                i <= files.len(),
                copy_views(copies@) == planned_copies(root@, to_root@, views(files@).subrange(0, i as int)),
            decreases files.len() - i,
        {
            let from = join(root.as_str(), files[i].as_str());
            let to = join(to_root.as_str(), files[i].as_str());
            copies.push(FileCopy { from, to });
            assert(views(files@).subrange(0, i + 1) =~= views(files@).subrange(0, i as int).push(files@[i as int]@));
            assert(copy_views(copies@) =~= planned_copies(root@, to_root@, views(files@).subrange(0, i as int)).push(
                (joined(root@, files@[i as int]@), joined(to_root@, files@[i as int]@)),
            ));
            i = i + 1;
        }
        assert(views(files@).subrange(0, files.len() as int) =~= views(files@));
        let mut copied: Vec<CopyItemReport> = Vec::new();
        copied.push(CopyItemReport { from: root, to: to_root, count: files.len() });
        let mut notes: Vec<String> = Vec::new();
        notes.push("Overwrite-on-write by default".to_owned());
        assert(views(notes@) =~= seq!["Overwrite-on-write by default"@]);
        Ok(BridgeScaffoldPlan { copies, report: BridgeScaffoldReport { copied, notes } })
    }

}

} // verus!
