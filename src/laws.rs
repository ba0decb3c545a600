//! Properties of the bridge lifecycle that hold across operations.
use vstd::prelude::*;

use crate::api::{change_reply, start_reply, status_reply, stop_reply};
use crate::bridge::{
    applied, fresh_state, opt_view, planned_copies, read_reply, resolve_reply, scaffold_checks,
    state_file_of, BridgeProcessInfo, BridgeProcessState, BridgeScaffoldPlan, BridgeStopResult,
    ChangeView, ProcessInfoView, StateView,
};
use crate::error::{CoreError, CoreResult};
use crate::model::NodeKind;
use crate::registry::Registry;

verus! {

/// Every operation that resolves a node fails with `UnknownNode` on an id
/// that the registry does not hold: describing its launch, finding its
/// template, scaffolding it and starting it (which leaves the records as
/// they were).
pub proof fn unknown_node_fails(
    graph: Registry,
    node_id: Seq<char>,
    ws: Seq<char>,
    ws_exists: bool,
    packs: Seq<char>,
    now: u64,
    before: Map<Seq<char>, StateView>,
    after: Map<Seq<char>, StateView>,
    described: CoreResult<BridgeProcessInfo>,
    source: CoreResult<Option<String>>,
    scaffolded: CoreResult<BridgeScaffoldPlan>,
    started: CoreResult<BridgeProcessState>,
)
    requires
        graph.node(node_id) is None,
        resolve_reply(described, graph, node_id),
        scaffold_checks(graph.node(node_id), node_id, ws, ws_exists, source),
        scaffold_checks(graph.node(node_id), node_id, ws, ws_exists, scaffolded),
        start_reply(started, graph, node_id, ws, packs, now, before, after),
    ensures
        described matches Err(CoreError::UnknownNode(m)) && m@ == node_id,
        source matches Err(CoreError::UnknownNode(m)) && m@ == node_id,
        scaffolded matches Err(CoreError::UnknownNode(m)) && m@ == node_id,
        started matches Err(CoreError::UnknownNode(m)) && m@ == node_id,
        after == before,
{
}

/// Every bridge operation fails with `WrongKind` on a node that is not a
/// bridge: describing its launch, finding its template, scaffolding it and
/// starting it (which leaves the records as they were).
pub proof fn non_bridge_is_wrong_kind(
    graph: Registry,
    node_id: Seq<char>,
    ws: Seq<char>,
    ws_exists: bool,
    packs: Seq<char>,
    now: u64,
    before: Map<Seq<char>, StateView>,
    after: Map<Seq<char>, StateView>,
    described: CoreResult<BridgeProcessInfo>,
    source: CoreResult<Option<String>>,
    scaffolded: CoreResult<BridgeScaffoldPlan>,
    started: CoreResult<BridgeProcessState>,
)
    requires
        graph.node(node_id) matches Some(n) && n.kind != NodeKind::Bridge,
        resolve_reply(described, graph, node_id),
        scaffold_checks(graph.node(node_id), node_id, ws, ws_exists, source),
        scaffold_checks(graph.node(node_id), node_id, ws, ws_exists, scaffolded),
        start_reply(started, graph, node_id, ws, packs, now, before, after),
    ensures
        described matches Err(CoreError::WrongKind { .. }),
        source matches Err(CoreError::WrongKind { .. }),
        scaffolded matches Err(CoreError::WrongKind { .. }),
        started matches Err(CoreError::WrongKind { .. }),
        after == before,
{
}

/// A status read right after a start sees the record of that start: status
/// `pending`, no pid, and the state id that the start minted.
pub proof fn start_then_status(
    m: Map<Seq<char>, StateView>,
    node_id: Seq<char>,
    info: ProcessInfoView,
    ws: Seq<char>,
    packs: Seq<char>,
    id: Seq<char>,
    started: u64,
    now: u64,
    r: CoreResult<BridgeProcessState>,
)
    requires
        status_reply(
            r,
            m.insert(state_file_of(ws, node_id), fresh_state(node_id, info, ws, packs, id, started)),
            ws,
            node_id,
            now,
        ),
    ensures
        r matches Ok(s) && s.status@ == "pending"@ && s.pid is None && s.id@ == id,
{
}

/// After an attach of `pid` without a status, a status read reports that pid
/// and status `running`.
pub proof fn attach_then_status(
    m: Map<Seq<char>, StateView>,
    after: Map<Seq<char>, StateView>,
    ws: Seq<char>,
    node_id: Seq<char>,
    pid: i32,
    message: Option<Seq<char>>,
    attached: u64,
    now: u64,
    r1: CoreResult<BridgeProcessState>,
    r2: CoreResult<BridgeProcessState>,
)
    requires
        m.contains_key(state_file_of(ws, node_id)),
        change_reply(
            r1,
            m,
            after,
            ws,
            node_id,
            ChangeView::Attach { pid, status: None, status_message: message },
            attached,
        ),
        status_reply(r2, after, ws, node_id, now),
    ensures
        r2 matches Ok(s) && s.pid == Some(pid) && s.status@ == "running"@,
{
}

/// A heartbeat that gives a status but no message keeps the message that
/// the record had.
pub proof fn heartbeat_keeps_message(
    m: Map<Seq<char>, StateView>,
    after: Map<Seq<char>, StateView>,
    ws: Seq<char>,
    node_id: Seq<char>,
    status: Seq<char>,
    now: u64,
    r: CoreResult<BridgeProcessState>,
)
    requires
        m.contains_key(state_file_of(ws, node_id)),
        change_reply(
            r,
            m,
            after,
            ws,
            node_id,
            ChangeView::Heartbeat { status: Some(status), status_message: None },
            now,
        ),
    ensures
        r matches Ok(s) && s.status@ == status && opt_view(s.status_message) == m[state_file_of(
            ws,
            node_id,
        )].status_message,
        after[state_file_of(ws, node_id)].status_message == m[state_file_of(
            ws,
            node_id,
        )].status_message,
{
}

/// An attach without a message clears the message that the record had.
pub proof fn attach_clears_message(
    m: Map<Seq<char>, StateView>,
    after: Map<Seq<char>, StateView>,
    ws: Seq<char>,
    node_id: Seq<char>,
    pid: i32,
    status: Option<Seq<char>>,
    now: u64,
    r: CoreResult<BridgeProcessState>,
)
    requires
        m.contains_key(state_file_of(ws, node_id)),
        change_reply(
            r,
            m,
            after,
            ws,
            node_id,
            ChangeView::Attach { pid, status, status_message: None },
            now,
        ),
    ensures
        r matches Ok(s) && s.status_message is None,
        after[state_file_of(ws, node_id)].status_message is None,
{
}

/// Completing with exit code 0 clears the pid and records the exit code.
pub proof fn complete_clears_pid(
    s: StateView,
    status: Option<Seq<char>>,
    message: Option<Seq<char>>,
    now: u64,
)
    ensures
        applied(s, ChangeView::Complete { exit_code: Some(0), status, status_message: message }, now).pid
            is None,
        applied(
            s,
            ChangeView::Complete { exit_code: Some(0), status, status_message: message },
            now,
        ).exit_code == Some(0i32),
{
}

/// After a stop deletes the record, a status read fails with
/// `TargetNotFound`.
pub proof fn stop_then_status(
    m: Map<Seq<char>, StateView>,
    ws: Seq<char>,
    node_id: Seq<char>,
    now: u64,
    r: CoreResult<BridgeProcessState>,
)
    requires
        status_reply(r, m.remove(state_file_of(ws, node_id)), ws, node_id, now),
    ensures
        r matches Err(CoreError::TargetNotFound(msg)) && msg@
            == "bridge not started for requested node"@,
{
}

/// Stopping a node that has no record fails with `TargetNotFound`, under a
/// message that differs from that of a status read of the same node.
pub proof fn stop_without_record(
    m: Map<Seq<char>, StateView>,
    ws: Seq<char>,
    node_id: Seq<char>,
    now: u64,
    stopped: CoreResult<BridgeStopResult>,
    status: CoreResult<BridgeProcessState>,
)
    requires
        !m.contains_key(state_file_of(ws, node_id)),
        stop_reply(stopped, m, ws, node_id),
        status_reply(status, m, ws, node_id, now),
    ensures
        stopped matches Err(CoreError::TargetNotFound(a)) && status matches Err(
            CoreError::TargetNotFound(b),
        ) && a@ != b@,
{
    reveal_strlit("no running bridge found for node");
    reveal_strlit("bridge not started for requested node");
    assert("no running bridge found for node"@.len() != "bridge not started for requested node"@.len());
}

/// Reading back a persisted record gives the same id, node id, workspace,
/// packs root, launch description and logs path; only the time of the last
/// update changes.
pub proof fn persist_then_read(
    m: Map<Seq<char>, StateView>,
    node_id: Seq<char>,
    info: ProcessInfoView,
    ws: Seq<char>,
    packs: Seq<char>,
    id: Seq<char>,
    written: u64,
    now: u64,
    r: Option<BridgeProcessState>,
)
    requires
        read_reply(
            r,
            m.insert(state_file_of(ws, node_id), fresh_state(node_id, info, ws, packs, id, written)),
            ws,
            node_id,
            now,
        ),
    ensures
        r matches Some(x) && x@ == (StateView {
            updated_at: now,
            ..fresh_state(node_id, info, ws, packs, id, written)
        }),
        r matches Some(x) && x.id@ == id && x.node_id@ == node_id && x.workspace@ == ws
            && x.packs_root@ == packs && x@.process == fresh_state(
            node_id,
            info,
            ws,
            packs,
            id,
            written,
        ).process && opt_view(x.logs_path) == info.logs_path,
{
}

/// A second start replaces the record of the first: a status read sees only
/// the second state id.
pub proof fn second_start_replaces_first(
    m: Map<Seq<char>, StateView>,
    node_id: Seq<char>,
    first: ProcessInfoView,
    second: ProcessInfoView,
    ws: Seq<char>,
    packs: Seq<char>,
    first_id: Seq<char>,
    second_id: Seq<char>,
    t1: u64,
    t2: u64,
    now: u64,
    r: CoreResult<BridgeProcessState>,
)
    requires
        status_reply(
            r,
            m.insert(
                state_file_of(ws, node_id),
                fresh_state(node_id, first, ws, packs, first_id, t1),
            ).insert(
                state_file_of(ws, node_id),
                fresh_state(node_id, second, ws, packs, second_id, t2),
            ),
            ws,
            node_id,
            now,
        ),
    ensures
        r matches Ok(s) && s.id@ == second_id,
{
}

/// A file tree (contents by path) after each copy of `copies` in turn
/// overwrote its destination with the contents of its source.
pub open spec fn copied_tree(tree: Map<Seq<char>, Seq<u8>>, copies: Seq<(Seq<char>, Seq<char>)>) -> Map<
    Seq<char>,
    Seq<u8>,
>
    decreases copies.len(),
{
    if copies.len() == 0 {
        tree
    } else {
        let t = copied_tree(tree, copies.drop_last());
        let c = copies.last();
        if t.contains_key(c.0) {
            t.insert(c.1, t[c.0])
        } else {
            t
        }
    }
}

pub open spec fn is_destination(copies: Seq<(Seq<char>, Seq<char>)>, p: Seq<char>) -> bool {
    exists|i: int| 0 <= i < copies.len() && (#[trigger] copies[i]).1 == p
}

pub open spec fn agree_at(a: Map<Seq<char>, Seq<u8>>, b: Map<Seq<char>, Seq<u8>>, p: Seq<char>) -> bool {
    a.contains_key(p) == b.contains_key(p) && (a.contains_key(p) ==> a[p] == b[p])
}

proof fn untouched_paths(tree: Map<Seq<char>, Seq<u8>>, copies: Seq<(Seq<char>, Seq<char>)>, p: Seq<char>)
    requires
        !is_destination(copies, p),
    ensures
        agree_at(copied_tree(tree, copies), tree, p),
    decreases copies.len(),
{
    if copies.len() > 0 {
        assert forall|i: int| 0 <= i < copies.drop_last().len() implies (#[trigger] copies.drop_last()[i]).1 != p by {
            assert(copies.drop_last()[i] == copies[i]);
        }
        untouched_paths(tree, copies.drop_last(), p);
        assert(copies[copies.len() - 1].1 != p);
    }
}

proof fn destinations_follow_sources(
    t1: Map<Seq<char>, Seq<u8>>,
    t2: Map<Seq<char>, Seq<u8>>,
    copies: Seq<(Seq<char>, Seq<char>)>,
    p: Seq<char>,
)
    requires
        forall|i: int, j: int| 0 <= i < copies.len() && 0 <= j < copies.len() ==> (#[trigger] copies[i]).1 != (#[trigger] copies[j]).0,
        forall|i: int| 0 <= i < copies.len() ==> agree_at(t1, t2, (#[trigger] copies[i]).0),
        forall|i: int| 0 <= i < copies.len() ==> t1.contains_key((#[trigger] copies[i]).0),
        is_destination(copies, p),
    ensures
        agree_at(copied_tree(t1, copies), copied_tree(t2, copies), p),
    decreases copies.len(),
{
    let init = copies.drop_last();
    let c = copies.last();
    assert(c == copies[copies.len() - 1]);
    assert forall|i: int, j: int| 0 <= i < init.len() && 0 <= j < init.len() implies (#[trigger] init[i]).1 != (#[trigger] init[j]).0 by {
        assert(init[i] == copies[i] && init[j] == copies[j]);
    }
    assert forall|i: int| 0 <= i < init.len() implies agree_at(t1, t2, (#[trigger] init[i]).0) && t1.contains_key(init[i].0) by {
        assert(init[i] == copies[i]);
    }
    assert(!is_destination(init, c.0)) by {
        assert forall|i: int| 0 <= i < init.len() implies (#[trigger] init[i]).1 != c.0 by {
            assert(init[i] == copies[i]);
        }
    }
    untouched_paths(t1, init, c.0);
    untouched_paths(t2, init, c.0);
    assert(agree_at(t1, t2, copies[copies.len() - 1].0));
    assert(t1.contains_key(copies[copies.len() - 1].0));
    let a1 = copied_tree(t1, init);
    let a2 = copied_tree(t2, init);
    assert(copied_tree(t1, copies) == if a1.contains_key(c.0) { a1.insert(c.1, a1[c.0]) } else { a1 });
    assert(copied_tree(t2, copies) == if a2.contains_key(c.0) { a2.insert(c.1, a2[c.0]) } else { a2 });
    if p != c.1 {
        let i = choose|i: int| 0 <= i < copies.len() && (#[trigger] copies[i]).1 == p;
        assert(i < copies.len() - 1);
        assert(init[i] == copies[i]);
        assert(is_destination(init, p));
        destinations_follow_sources(t1, t2, init, p);
        assert(agree_at(a1, a2, p));
    } else {
        assert(a1.contains_key(c.0) == a2.contains_key(c.0));
        if a1.contains_key(c.0) {
            assert(a1[c.0] == a2[c.0]);
        }
    }
}

/// Scaffolding is idempotent: copying the planned files a second time, from
/// an unchanged template, leaves the tree as the first copy left it. The
/// plan's sources exist and are not among its destinations.
pub proof fn scaffold_twice_is_once(
    tree: Map<Seq<char>, Seq<u8>>,
    root: Seq<char>,
    to_root: Seq<char>,
    files: Seq<Seq<char>>,
)
    requires
        forall|i: int, j: int|
            0 <= i < planned_copies(root, to_root, files).len() && 0 <= j < planned_copies(
                root,
                to_root,
                files,
            ).len() ==> (#[trigger] planned_copies(root, to_root, files)[i]).1 != (
            #[trigger] planned_copies(root, to_root, files)[j]).0,
        forall|i: int|
            0 <= i < planned_copies(root, to_root, files).len() ==> tree.contains_key(
                (#[trigger] planned_copies(root, to_root, files)[i]).0,
            ),
    ensures
        copied_tree(copied_tree(tree, planned_copies(root, to_root, files)), planned_copies(root, to_root, files))
            == copied_tree(tree, planned_copies(root, to_root, files)),
        planned_copies(root, to_root, files).len() == files.len(),
{
    let copies = planned_copies(root, to_root, files);
    let once = copied_tree(tree, copies);
    let twice = copied_tree(once, copies);
    assert forall|i: int| 0 <= i < copies.len() implies agree_at(once, tree, (#[trigger] copies[i]).0) by {
        assert(!is_destination(copies, copies[i].0)) by {
            assert forall|j: int| 0 <= j < copies.len() implies (#[trigger] copies[j]).1 != copies[i].0 by {}
        }
        untouched_paths(tree, copies, copies[i].0);
    }
    assert forall|p: Seq<char>| agree_at(twice, once, p) by {
        if is_destination(copies, p) {
            destinations_follow_sources(once, tree, copies, p);
        } else {
            untouched_paths(once, copies, p);
        }
    }
    assert forall|p: Seq<char>| #[trigger] twice.contains_key(p) <==> once.contains_key(p) by {
        assert(agree_at(twice, once, p));
    }
    assert forall|p: Seq<char>| #[trigger] twice.contains_key(p) implies twice[p] == once[p] by {
        assert(agree_at(twice, once, p));
    }
    assert(twice =~= once);
}

} // verus!
