use vstd::prelude::*;

use crate::bridge::{
    descriptor, fresh_state, passes_checks, planned_copies, refreshed, scaffold_checks,
    scaffold_target, state_file_of, template_of, applied, ChangeView, BridgeExecutor, BridgeProcessState,
    BridgeScaffoldPlan, BridgeStopResult, StateStore, StateView,
};
use crate::components::{copy_views, opt_views, select_reply, ComponentSelection, ComponentsExecutor};
use crate::error::{CoreError, CoreResult};
use crate::model::{kind_label, NodeKind};
use crate::registry::{views, Registry};

verus! {

/// Request to copy a bridge's template into a workspace.
#[derive(Debug, Clone)]
pub struct BridgeScaffoldReq {
    pub node_id: String,
    pub workspace: Option<String>,
}

/// Request to start a bridge lifecycle.
#[derive(Debug, Clone)]
pub struct BridgeStartReq {
    pub node_id: String,
    pub workspace: Option<String>,
}

/// Request for the lifecycle record of a bridge.
#[derive(Debug, Clone)]
pub struct BridgeStatusReq {
    pub node_id: String,
    pub workspace: Option<String>,
}

/// Request to stop a bridge.
#[derive(Debug, Clone)]
pub struct BridgeStopReq {
    pub node_id: String,
    pub workspace: Option<String>,
}

/// Request to bind a running process to a bridge lifecycle.
#[derive(Debug, Clone)]
pub struct BridgeAttachReq {
    pub node_id: String,
    pub workspace: Option<String>,
    pub pid: i32,
    pub status: Option<String>,
    pub status_message: Option<String>,
}

/// Request to record that a bridge is alive.
#[derive(Debug, Clone)]
pub struct BridgeHeartbeatReq {
    pub node_id: String,
    pub workspace: Option<String>,
    pub status: Option<String>,
    pub status_message: Option<String>,
}

/// Request to read a doc node.
#[derive(Debug, Clone)]
pub struct DocsReadReq {
    pub node_id: String,
    pub packs_path: Option<String>,
    pub product: Option<String>,
}

/// Request to load the graph of a packs directory for later requests.
#[derive(Debug, Clone)]
pub struct SessionInitReq {
    pub packs_path: String,
    pub product: Option<String>,
}

/// Request to run a setup node.
#[derive(Debug, Clone)]
pub struct SetupRunReq {
    pub node_id: String,
    pub workspace: Option<String>,
}

/// Request to install UI components.
#[derive(Debug, Clone)]
pub struct UiInstallReq {
    pub mode: Option<String>,
    pub names: Option<Vec<String>>,
    pub workspace: Option<String>,
    pub node_id: Option<String>,
    pub packs_path: Option<String>,
    pub product: Option<String>,
}

pub open spec fn workspace_view(ws: Option<String>, cwd: Seq<char>) -> Seq<char> {
    match ws {
        Some(w) => w@,
        None => cwd,
    }
}

/// The workspace a request names, or else `cwd`.
pub fn workspace_or_default(workspace: &Option<String>, cwd: &str) -> (r: String)
    ensures
        r@ == workspace_view(*workspace, cwd@),
{
    match workspace {
        Some(w) => w.clone(),
        None => cwd.to_owned(),
    }
}

pub open spec fn opt_as_str(o: Option<String>) -> Option<Seq<char>> {
    match o {
        Some(s) => Some(s@),
        None => None,
    }
}

fn as_opt_str(o: &Option<String>) -> (r: Option<&str>)
    ensures
        crate::bridge::opt_str_view(r) == opt_as_str(*o),
{
    match o {
        Some(s) => Some(s.as_str()),
        None => None,
    }
}

/// Relies on uuid::Uuid::new_v4 and its hyphenated text form: a fresh random
/// id of 36 characters.
#[verifier::external_body]
fn new_state_id() -> (r: String)
    ensures
        r@.len() == 36,
{
    uuid::Uuid::new_v4().to_string()
}

/// What `status` answers on the records `m` at time `now`.
pub open spec fn status_reply(
    r: CoreResult<BridgeProcessState>,
    m: Map<Seq<char>, StateView>,
    ws: Seq<char>,
    node_id: Seq<char>,
    now: u64,
) -> bool {
    match m.get(state_file_of(ws, node_id)) {
        None => r matches Err(CoreError::TargetNotFound(msg)) && msg@
            == "bridge not started for requested node"@,
        Some(s) => r matches Ok(x) && x@ == refreshed(s, now),
    }
}

/// What `stop` answers on the records `m`.
pub open spec fn stop_reply(
    r: CoreResult<BridgeStopResult>,
    m: Map<Seq<char>, StateView>,
    ws: Seq<char>,
    node_id: Seq<char>,
) -> bool {
    match m.get(state_file_of(ws, node_id)) {
        None => r matches Err(CoreError::TargetNotFound(msg)) && msg@
            == "no running bridge found for node"@,
        Some(s) => r matches Ok(x) && x.pid == s.pid && x.status@ == "stopped"@ && x.state_id@
            == s.id,
    }
}

/// What a change (`attach`, `heartbeat`) answers on the records `m`, and the
/// records it leaves.
pub open spec fn change_reply(
    r: CoreResult<BridgeProcessState>,
    m: Map<Seq<char>, StateView>,
    after: Map<Seq<char>, StateView>,
    ws: Seq<char>,
    node_id: Seq<char>,
    c: ChangeView,
    now: u64,
) -> bool {
    match m.get(state_file_of(ws, node_id)) {
        None => after == m && (r matches Err(CoreError::TargetNotFound(msg)) && msg@
            == "bridge state not found"@),
        Some(s) => r matches Ok(x) && x@ == applied(s, c, now) && after == m.insert(
            state_file_of(ws, node_id),
            x@,
        ),
    }
}

/// What starting node `node_id` in workspace `ws` returns, and the records
/// it leaves: on success a pending record under a fresh 36-character id
/// replaces the node's record; on failure the records are unchanged.
pub open spec fn start_reply(
    r: CoreResult<BridgeProcessState>,
    graph: Registry,
    node_id: Seq<char>,
    ws: Seq<char>,
    packs: Seq<char>,
    now: u64,
    before: Map<Seq<char>, StateView>,
    after: Map<Seq<char>, StateView>,
) -> bool {
    &&& r is Err ==> after == before
    &&& match graph.node(node_id) {
        None => r matches Err(CoreError::UnknownNode(m)) && m@ == node_id,
        Some(n) => if n.kind != NodeKind::Bridge {
            r matches Err(CoreError::WrongKind { expected, actual }) && expected@ == "bridge"@
                && actual@ == kind_label(n.kind)
        } else {
            match descriptor(n.payload) {
                None => r matches Err(CoreError::InvalidDescriptor(m)) && m@ == "bridge node "@
                    + node_id + " missing runner or spawn descriptor"@,
                Some(d) => r matches Ok(s) && s.id@.len() == 36 && s@ == fresh_state(
                    node_id,
                    d,
                    ws,
                    packs,
                    s.id@,
                    now,
                ) && after == before.insert(state_file_of(ws, node_id), s@),
            }
        },
    }
}

/// Starts a lifecycle of bridge `req.node_id`: resolves its launch
/// description, mints a fresh state id and writes a pending record, replacing
/// any record of the node in that workspace. Resolution failures leave the
/// records unchanged.
pub fn bridge_start(
    exec: &BridgeExecutor,
    store: &mut StateStore,
    req: &BridgeStartReq,
    packs: &str,
    cwd: &str,
    now: u64,
) -> (r: CoreResult<BridgeProcessState>)
    requires
        exec.graph().wf(),
        old(store).wf(),
    ensures
        final(store).wf(),
        start_reply(
            r,
            exec.graph(),
            req.node_id@,
            workspace_view(req.workspace, cwd@),
            packs@,
            now,
            old(store)@,
            final(store)@,
        ),
{
    let ws = workspace_or_default(&req.workspace, cwd);
    let info = exec.spawn_descriptor(req.node_id.as_str())?;
    let state_id = new_state_id();
    exec.persist_state(store, req.node_id.as_str(), info, ws.as_str(), packs, state_id.as_str(), now);
    match BridgeExecutor::read_state(store, ws.as_str(), req.node_id.as_str(), now) {
        Some(s) => Ok(s),
        None => {
            assert(false);
            Err(CoreError::TargetNotFound(ws))
        },
    }
}

/// The lifecycle record of bridge `req.node_id`, as observed at `now`.
pub fn bridge_status(store: &StateStore, req: &BridgeStatusReq, cwd: &str, now: u64) -> (r:
    CoreResult<BridgeProcessState>)
    requires
        store.wf(),
    ensures
        status_reply(r, store@, workspace_view(req.workspace, cwd@), req.node_id@, now),
{
    let ws = workspace_or_default(&req.workspace, cwd);
    match BridgeExecutor::read_state(store, ws.as_str(), req.node_id.as_str(), now) {
        Some(s) => Ok(s),
        None => Err(CoreError::TargetNotFound("bridge not started for requested node".to_owned())),
    }
}

/// Stops bridge `req.node_id`: deletes its record and reports the pid to
/// signal, which the caller signals where it can.
pub fn bridge_stop(store: &mut StateStore, req: &BridgeStopReq, cwd: &str) -> (r: CoreResult<
    BridgeStopResult,
>)
    requires
        old(store).wf(),
    ensures
        final(store).wf(),
        final(store)@ == old(store)@.remove(
            state_file_of(workspace_view(req.workspace, cwd@), req.node_id@),
        ),
        stop_reply(r, old(store)@, workspace_view(req.workspace, cwd@), req.node_id@),
{
    let ws = workspace_or_default(&req.workspace, cwd);
    match BridgeExecutor::stop(store, ws.as_str(), req.node_id.as_str()) {
        Some(s) => Ok(s),
        None => Err(CoreError::TargetNotFound("no running bridge found for node".to_owned())),
    }
}

/// Binds process `req.pid` to the lifecycle of bridge `req.node_id`.
pub fn bridge_attach(store: &mut StateStore, req: &BridgeAttachReq, cwd: &str, now: u64) -> (r:
    CoreResult<BridgeProcessState>)
    requires
        old(store).wf(),
    ensures
        final(store).wf(),
        change_reply(
            r,
            old(store)@,
            final(store)@,
            workspace_view(req.workspace, cwd@),
            req.node_id@,
            ChangeView::Attach {
                pid: req.pid,
                status: opt_as_str(req.status),
                status_message: opt_as_str(req.status_message),
            },
            now,
        ),
{
    let ws = workspace_or_default(&req.workspace, cwd);
    let status = as_opt_str(&req.status);
    let msg = as_opt_str(&req.status_message);
    match BridgeExecutor::attach_pid(store, ws.as_str(), req.node_id.as_str(), req.pid, status, msg, now) {
        Some(s) => Ok(s),
        None => Err(CoreError::TargetNotFound("bridge state not found".to_owned())),
    }
}

/// Records that bridge `req.node_id` is alive at `now`.
pub fn bridge_heartbeat(store: &mut StateStore, req: &BridgeHeartbeatReq, cwd: &str, now: u64) -> (r:
    CoreResult<BridgeProcessState>)
    requires
        old(store).wf(),
    ensures
        final(store).wf(),
        change_reply(
            r,
            old(store)@,
            final(store)@,
            workspace_view(req.workspace, cwd@),
            req.node_id@,
            ChangeView::Heartbeat {
                status: opt_as_str(req.status),
                status_message: opt_as_str(req.status_message),
            },
            now,
        ),
{
    let ws = workspace_or_default(&req.workspace, cwd);
    let status = as_opt_str(&req.status);
    let msg = as_opt_str(&req.status_message);
    match BridgeExecutor::heartbeat(store, ws.as_str(), req.node_id.as_str(), status, msg, now) {
        Some(s) => Ok(s),
        None => Err(CoreError::TargetNotFound("bridge state not found".to_owned())),
    }
}

/// Plans scaffolding bridge `req.node_id` into the request's workspace; see
/// `BridgeExecutor::scaffold`.
pub fn bridge_scaffold(
    exec: &BridgeExecutor,
    req: &BridgeScaffoldReq,
    cwd: &str,
    workspace_exists: bool,
    template_files: Option<&Vec<String>>,
) -> (r: CoreResult<BridgeScaffoldPlan>)
    requires
        exec.graph().wf(),
    ensures
        scaffold_checks(
            exec.graph().node(req.node_id@),
            req.node_id@,
            workspace_view(req.workspace, cwd@),
            workspace_exists,
            r,
        ),
        passes_checks(exec.graph().node(req.node_id@), workspace_exists) ==> match template_of(
            exec.graph().node(req.node_id@)->Some_0.payload,
        ) {
            None => r matches Ok(p) && p.copies@.len() == 0 && p.report.copied@.len() == 0
                && p.report.notes@.len() == 0,
            Some(root) => match template_files {
                None => r matches Err(CoreError::MissingSource(m)) && m@ == root,
                Some(files) => r matches Ok(p) && copy_views(p.copies@) == planned_copies(
                    root,
                    scaffold_target(workspace_view(req.workspace, cwd@)),
                    views(files@),
                ) && p.report.copied@.len() == 1 && p.report.copied@[0].from@ == root
                    && p.report.copied@[0].to@ == scaffold_target(workspace_view(req.workspace, cwd@))
                    && p.report.copied@[0].count == files@.len() && views(p.report.notes@)
                    == seq!["Overwrite-on-write by default"@],
            },
        },
{
    let ws = workspace_or_default(&req.workspace, cwd);
    exec.scaffold(req.node_id.as_str(), ws.as_str(), workspace_exists, template_files)
}

/// The component node that UI installs use unless a request names another.
pub open spec fn default_install_node() -> Seq<char> {
    "entityauth:components:install"@
}

/// The mode of a UI install request; without one, both selection keys are
/// missing.
pub fn install_mode(req: &UiInstallReq) -> (r: CoreResult<String>)
    ensures
        match req.mode {
            None => r matches Err(CoreError::MissingSelections(v)) && views(v@) == seq![
                "selection.mode"@,
                "selection.names"@,
            ],
            Some(m) => r matches Ok(x) && x@ == m@,
        },
{
    match &req.mode {
        Some(m) => Ok(m.clone()),
        None => {
            let v = vec!["selection.mode".to_owned(), "selection.names".to_owned()];
            assert(views(v@) =~= seq!["selection.mode"@, "selection.names"@]);
            Err(CoreError::MissingSelections(v))
        },
    }
}

/// Checks a UI install request and selects its components: the mode must be
/// given; the node is the request's or the default install node, and the
/// write root is the request's workspace or `cwd` (`root_exists` and
/// `root_writable` say what holds of it).
pub fn ui_install(
    exec: &ComponentsExecutor,
    req: UiInstallReq,
    cwd: &str,
    root_exists: bool,
    root_writable: bool,
) -> (r: CoreResult<ComponentSelection>)
    requires
        exec.graph().wf(),
    ensures
        match req.mode {
            None => r matches Err(CoreError::MissingSelections(v)) && views(v@) == seq![
                "selection.mode"@,
                "selection.names"@,
            ],
            Some(mode) => select_reply(
                r,
                exec.graph(),
                match req.node_id {
                    Some(n) => n@,
                    None => default_install_node(),
                },
                mode@,
                opt_views(req.names),
                workspace_view(req.workspace, cwd@),
                root_exists,
                root_writable,
            ),
        },
{
    let mode = install_mode(&req)?;
    let ws = workspace_or_default(&req.workspace, cwd);
    let node_id = match req.node_id {
        Some(n) => n,
        None => "entityauth:components:install".to_owned(),
    };
    exec.select(node_id.as_str(), mode.as_str(), req.names, ws.as_str(), root_exists, root_writable)
}

} // verus!
