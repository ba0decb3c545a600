use entity_cli::api::{
    bridge_attach, bridge_heartbeat, bridge_scaffold, bridge_start, bridge_status, bridge_stop,
    workspace_or_default, BridgeAttachReq, BridgeHeartbeatReq, BridgeScaffoldReq, BridgeStartReq,
    BridgeStatusReq, BridgeStopReq,
};
use entity_cli::bridge::{BridgeExecutor, StateStore};
use entity_cli::error::CoreError;
use entity_cli::model::{
    BridgeEnvVar, BridgeSpawnDescriptor, Node, NodeKind, NodeMeta, NodePayload,
};
use entity_cli::registry::{path_checks, Registry};

fn meta() -> NodeMeta {
    NodeMeta { section: None, tags: vec![], names: vec![] }
}

fn bridge_node(
    id: &str,
    template_root: Option<&str>,
    runner: Option<&str>,
    config_template: Option<&str>,
    logs_path: Option<&str>,
) -> Node {
    Node {
        id: id.into(),
        kind: NodeKind::Bridge,
        title: "bridge".into(),
        meta: meta(),
        prerequisites: vec![],
        payload: NodePayload::Bridge {
            template_root: template_root.map(|p| p.to_string()),
            runner: runner.map(|p| p.to_string()),
            config_template: config_template.map(|p| p.to_string()),
            spawn: None,
            logs_path: logs_path.map(|p| p.to_string()),
            heartbeat_interval_ms: Some(5_000),
        },
    }
}

fn registry_of(nodes: Vec<Node>) -> Registry {
    let present: Vec<Vec<bool>> = nodes.iter().map(|n| vec![true; path_checks(n).len()]).collect();
    Registry::new(nodes, &present).unwrap()
}

fn doc_node(id: &str) -> Node {
    Node {
        id: id.into(),
        kind: NodeKind::Doc,
        title: "t".into(),
        meta: meta(),
        prerequisites: vec![],
        payload: NodePayload::Doc { content_path: "/docs/a.md".into() },
    }
}

#[test]
fn runner_descriptor_uses_parent_directory() {
    let reg = registry_of(vec![bridge_node("x:bridge:r", None, Some("/pack/bridge/runner.js"), None, None)]);
    let exec = BridgeExecutor::new(&reg);
    let info = exec.spawn_descriptor("x:bridge:r").unwrap();
    assert_eq!(info.entry, "/pack/bridge/runner.js");
    assert!(info.args.is_empty());
    assert!(info.env.is_empty());
    assert_eq!(info.cwd.as_deref(), Some("/pack/bridge"));
}

#[test]
fn spawn_descriptor_copies_spawn_fields() {
    let mut node = bridge_node("x:bridge:s", None, None, Some("/pack/cfg.json"), Some("/pack/logs/out.log"));
    if let NodePayload::Bridge { spawn, .. } = &mut node.payload {
        *spawn = Some(BridgeSpawnDescriptor {
            entry: "/pack/main.js".into(),
            args: vec!["--port".into(), "9".into()],
            env: vec![
                BridgeEnvVar { key: "TOKEN".into(), default: None },
                BridgeEnvVar { key: "MODE".into(), default: Some("dev".into()) },
            ],
            cwd: Some("/work".into()),
        });
    }
    let reg = registry_of(vec![node]);
    let exec = BridgeExecutor::new(&reg);
    let info = exec.spawn_descriptor("x:bridge:s").unwrap();
    assert_eq!(info.entry, "/pack/main.js");
    assert_eq!(info.args, vec!["--port".to_string(), "9".to_string()]);
    assert_eq!(
        info.env,
        vec![("TOKEN".to_string(), None), ("MODE".to_string(), Some("dev".to_string()))]
    );
    assert_eq!(info.cwd.as_deref(), Some("/work"));
    assert_eq!(info.config_path.as_deref(), Some("/pack/cfg.json"));
    assert_eq!(info.logs_path.as_deref(), Some("/pack/logs/out.log"));
}

#[test]
fn runner_wins_over_spawn() {
    let mut node = bridge_node("x:bridge:b", None, Some("/p/run.js"), None, None);
    if let NodePayload::Bridge { spawn, .. } = &mut node.payload {
        *spawn = Some(BridgeSpawnDescriptor { entry: "/p/other.js".into(), args: vec!["a".into()], env: vec![], cwd: None });
    }
    let reg = registry_of(vec![node]);
    let info = BridgeExecutor::new(&reg).spawn_descriptor("x:bridge:b").unwrap();
    assert_eq!(info.entry, "/p/run.js");
    assert!(info.args.is_empty());
}

#[test]
fn unknown_node_fails_everywhere() {
    let reg = registry_of(vec![]);
    let exec = BridgeExecutor::new(&reg);
    assert!(matches!(exec.spawn_descriptor("nope"), Err(CoreError::UnknownNode(id)) if id == "nope"));
    assert!(matches!(exec.scaffold("nope", "/ws", true, None), Err(CoreError::UnknownNode(_))));
    let mut store = StateStore::new();
    let req = BridgeStartReq { node_id: "nope".into(), workspace: Some("/ws".into()) };
    assert!(matches!(bridge_start(&exec, &mut store, &req, "/packs", "/cwd", 1), Err(CoreError::UnknownNode(_))));
    let sreq = BridgeScaffoldReq { node_id: "nope".into(), workspace: None };
    assert!(matches!(bridge_scaffold(&exec, &sreq, "/cwd", true, None), Err(CoreError::UnknownNode(_))));
}

#[test]
fn non_bridge_node_is_wrong_kind() {
    let reg = registry_of(vec![doc_node("x:doc:one")]);
    let exec = BridgeExecutor::new(&reg);
    match exec.spawn_descriptor("x:doc:one") {
        Err(CoreError::WrongKind { expected, actual }) => {
            assert_eq!(expected, "bridge");
            assert_eq!(actual, "Doc");
        }
        other => panic!("unexpected {:?}", other),
    }
    assert!(matches!(exec.scaffold("x:doc:one", "/ws", true, None), Err(CoreError::WrongKind { .. })));
    let mut store = StateStore::new();
    let req = BridgeStartReq { node_id: "x:doc:one".into(), workspace: None };
    assert!(matches!(bridge_start(&exec, &mut store, &req, "/packs", "/cwd", 1), Err(CoreError::WrongKind { .. })));
}

#[test]
fn template_only_bridge_has_invalid_descriptor() {
    let reg = registry_of(vec![bridge_node("x:bridge:t", Some("/tpl"), None, None, None)]);
    let exec = BridgeExecutor::new(&reg);
    match exec.spawn_descriptor("x:bridge:t") {
        Err(CoreError::InvalidDescriptor(m)) => {
            assert_eq!(m, "bridge node x:bridge:t missing runner or spawn descriptor")
        }
        other => panic!("unexpected {:?}", other),
    }
    assert_eq!(
        CoreError::InvalidDescriptor("x".into()).code(),
        "INVALID_DESCRIPTOR"
    );
}

#[test]
fn state_file_is_sanitized_under_state_dir() {
    assert_eq!(BridgeExecutor::safe_node_filename("entityauth:bridge:test"), "entityauth_bridge_test");
    assert_eq!(BridgeExecutor::safe_node_filename("a-b.c/d"), "a_b_c_d");
    assert_eq!(BridgeExecutor::state_dir("/ws"), "/ws/.entitycli/bridge/state");
    assert_eq!(
        BridgeExecutor::state_file("/ws", "entityauth:bridge:test"),
        "/ws/.entitycli/bridge/state/entityauth_bridge_test.json"
    );
}

#[test]
fn scaffold_and_state_roundtrip() {
    let reg = registry_of(vec![bridge_node(
        "x:bridge:test",
        Some("/packs/bridge/test"),
        Some("/packs/bridge/test/runner.js"),
        Some("/packs/bridge/test/config.json"),
        Some("/packs/bridge/test/logs/output.log"),
    )]);
    let exec = BridgeExecutor::new(&reg);
    let files = vec!["README.md".to_string(), "runner.js".to_string()];
    let plan = exec.scaffold("x:bridge:test", "/ws", true, Some(&files)).unwrap();
    assert_eq!(plan.report.copied.len(), 1);

    let mut store = StateStore::new();
    let info = exec.spawn_descriptor("x:bridge:test").unwrap();
    exec.persist_state(&mut store, "x:bridge:test", info, "/ws", "/packs", "state-123", 10);

    let state = BridgeExecutor::read_state(&store, "/ws", "x:bridge:test", 11).expect("state");
    assert_eq!(state.id, "state-123");
    assert_eq!(state.status, "pending");

    BridgeExecutor::attach_pid(&mut store, "/ws", "x:bridge:test", 1234, Some("running"), Some("up"), 12);
    let state = BridgeExecutor::read_state(&store, "/ws", "x:bridge:test", 13).expect("state");
    assert_eq!(state.pid, Some(1234));
    assert_eq!(state.status, "running");
    assert_eq!(state.status_message.as_deref(), Some("up"));

    BridgeExecutor::heartbeat(&mut store, "/ws", "x:bridge:test", Some("healthy"), Some("ok"), 14);
    let state = BridgeExecutor::read_state(&store, "/ws", "x:bridge:test", 15).expect("state");
    assert_eq!(state.status, "healthy");
    assert_eq!(state.status_message.as_deref(), Some("ok"));

    BridgeExecutor::complete(&mut store, "/ws", "x:bridge:test", Some(0), Some("exited"), Some("done"), 16);
    let state = BridgeExecutor::read_state(&store, "/ws", "x:bridge:test", 17).expect("state");
    assert_eq!(state.exit_code, Some(0));
    assert_eq!(state.pid, None);

    let stop = BridgeExecutor::stop(&mut store, "/ws", "x:bridge:test").expect("stop");
    assert_eq!(stop.status, "stopped");
}

#[test]
fn start_then_status_is_pending() {
    let reg = registry_of(vec![bridge_node("x:b", None, Some("/p/run.js"), None, Some("/p/log.txt"))]);
    let exec = BridgeExecutor::new(&reg);
    let mut store = StateStore::new();
    let req = BridgeStartReq { node_id: "x:b".into(), workspace: Some("/ws".into()) };
    let started = bridge_start(&exec, &mut store, &req, "/packs", "/cwd", 100).unwrap();
    assert_eq!(started.id.len(), 36);
    assert_eq!(started.status, "pending");
    assert_eq!(started.workspace, "/ws");
    assert_eq!(started.packs_root, "/packs");
    let sreq = BridgeStatusReq { node_id: "x:b".into(), workspace: Some("/ws".into()) };
    let s = bridge_status(&store, &sreq, "/cwd", 200).unwrap();
    assert_eq!(s.status, "pending");
    assert_eq!(s.pid, None);
    assert_eq!(s.id, started.id);
    assert_eq!(s.updated_at, 200);
    assert_eq!(s.heartbeat_at, None);
    assert_eq!(s.logs_path.as_deref(), Some("/p/log.txt"));
}

#[test]
fn attach_then_status_is_running() {
    let reg = registry_of(vec![bridge_node("x:b", None, Some("/p/run.js"), None, None)]);
    let exec = BridgeExecutor::new(&reg);
    let mut store = StateStore::new();
    let req = BridgeStartReq { node_id: "x:b".into(), workspace: None };
    bridge_start(&exec, &mut store, &req, "/packs", "/cwd", 1).unwrap();
    let areq = BridgeAttachReq { node_id: "x:b".into(), workspace: None, pid: 4321, status: None, status_message: None };
    let a = bridge_attach(&mut store, &areq, "/cwd", 2).unwrap();
    assert_eq!(a.heartbeat_at, Some(2));
    let s = bridge_status(&store, &BridgeStatusReq { node_id: "x:b".into(), workspace: None }, "/cwd", 3).unwrap();
    assert_eq!(s.pid, Some(4321));
    assert_eq!(s.status, "running");
    assert_eq!(s.exit_code, None);
}

#[test]
fn heartbeat_keeps_message_and_attach_clears_it() {
    let reg = registry_of(vec![bridge_node("x:b", None, Some("/p/run.js"), None, None)]);
    let exec = BridgeExecutor::new(&reg);
    let mut store = StateStore::new();
    bridge_start(&exec, &mut store, &BridgeStartReq { node_id: "x:b".into(), workspace: None }, "/packs", "/cwd", 1).unwrap();
    let areq = BridgeAttachReq {
        node_id: "x:b".into(),
        workspace: None,
        pid: 7,
        status: None,
        status_message: Some("booting".into()),
    };
    bridge_attach(&mut store, &areq, "/cwd", 2).unwrap();
    let hreq = BridgeHeartbeatReq { node_id: "x:b".into(), workspace: None, status: Some("healthy".into()), status_message: None };
    let h = bridge_heartbeat(&mut store, &hreq, "/cwd", 3).unwrap();
    assert_eq!(h.status, "healthy");
    assert_eq!(h.status_message.as_deref(), Some("booting"));
    assert_eq!(h.pid, Some(7));
    let areq2 = BridgeAttachReq { node_id: "x:b".into(), workspace: None, pid: 8, status: None, status_message: None };
    let a = bridge_attach(&mut store, &areq2, "/cwd", 4).unwrap();
    assert_eq!(a.status_message, None);
    assert_eq!(a.status, "running");
}

#[test]
fn complete_clears_pid_and_sets_exit_code() {
    let reg = registry_of(vec![bridge_node("x:b", None, Some("/p/run.js"), None, None)]);
    let exec = BridgeExecutor::new(&reg);
    let mut store = StateStore::new();
    let started = bridge_start(&exec, &mut store, &BridgeStartReq { node_id: "x:b".into(), workspace: None }, "/packs", "/cwd", 1).unwrap();
    BridgeExecutor::attach_pid(&mut store, "/cwd", "x:b", 99, None, Some("m"), 2).unwrap();
    let c = BridgeExecutor::complete(&mut store, "/cwd", "x:b", Some(0), None, None, 3).unwrap();
    assert_eq!(c.pid, None);
    assert_eq!(c.exit_code, Some(0));
    assert_eq!(c.status, "exited");
    assert_eq!(c.status_message, None);
    assert_eq!(c.id, started.id);
    let again = BridgeExecutor::attach_pid(&mut store, "/cwd", "x:b", 100, Some("restarted"), None, 4).unwrap();
    assert_eq!(again.pid, Some(100));
    assert_eq!(again.exit_code, None);
    assert_eq!(again.id, started.id);
}

#[test]
fn stop_removes_record_then_status_fails() {
    let reg = registry_of(vec![bridge_node("x:b", None, Some("/p/run.js"), None, None)]);
    let exec = BridgeExecutor::new(&reg);
    let mut store = StateStore::new();
    let started = bridge_start(&exec, &mut store, &BridgeStartReq { node_id: "x:b".into(), workspace: None }, "/packs", "/cwd", 1).unwrap();
    BridgeExecutor::attach_pid(&mut store, "/cwd", "x:b", 55, None, None, 2).unwrap();
    let stopped = bridge_stop(&mut store, &BridgeStopReq { node_id: "x:b".into(), workspace: None }, "/cwd").unwrap();
    assert_eq!(stopped.pid, Some(55));
    assert_eq!(stopped.status, "stopped");
    assert_eq!(stopped.state_id, started.id);
    assert!(store.get(&BridgeExecutor::state_file("/cwd", "x:b")).is_none());
    match bridge_status(&store, &BridgeStatusReq { node_id: "x:b".into(), workspace: None }, "/cwd", 3) {
        Err(e) => {
            assert_eq!(e.code(), "TARGET_NOT_FOUND");
            assert_eq!(e.message(), "Target path not found: bridge not started for requested node");
        }
        Ok(_) => panic!("status after stop must fail"),
    }
}

#[test]
fn stop_without_record_is_not_found() {
    let mut store = StateStore::new();
    assert!(BridgeExecutor::stop(&mut store, "/ws", "x:none").is_none());
    match bridge_stop(&mut store, &BridgeStopReq { node_id: "x:none".into(), workspace: Some("/ws".into()) }, "/cwd") {
        Err(CoreError::TargetNotFound(m)) => assert_eq!(m, "no running bridge found for node"),
        other => panic!("unexpected {:?}", other),
    }
    let areq = BridgeAttachReq { node_id: "x:none".into(), workspace: None, pid: 1, status: None, status_message: None };
    match bridge_attach(&mut store, &areq, "/cwd", 1) {
        Err(CoreError::TargetNotFound(m)) => assert_eq!(m, "bridge state not found"),
        other => panic!("unexpected {:?}", other),
    }
    let hreq = BridgeHeartbeatReq { node_id: "x:none".into(), workspace: None, status: None, status_message: None };
    assert!(matches!(bridge_heartbeat(&mut store, &hreq, "/cwd", 1), Err(CoreError::TargetNotFound(_))));
    assert!(BridgeExecutor::complete(&mut store, "/cwd", "x:none", Some(1), None, None, 1).is_none());
}

#[test]
fn second_start_replaces_first() {
    let reg = registry_of(vec![bridge_node("x:b", None, Some("/p/run.js"), None, None)]);
    let exec = BridgeExecutor::new(&reg);
    let mut store = StateStore::new();
    let info1 = exec.spawn_descriptor("x:b").unwrap();
    exec.persist_state(&mut store, "x:b", info1, "/ws", "/packs", "first-id", 1);
    BridgeExecutor::attach_pid(&mut store, "/ws", "x:b", 5, None, Some("old"), 2).unwrap();
    let info2 = exec.spawn_descriptor("x:b").unwrap();
    exec.persist_state(&mut store, "x:b", info2, "/ws", "/packs", "second-id", 3);
    let s = BridgeExecutor::read_state(&store, "/ws", "x:b", 4).unwrap();
    assert_eq!(s.id, "second-id");
    assert_eq!(s.pid, None);
    assert_eq!(s.status, "pending");
    assert_eq!(s.status_message, None);
}

#[test]
fn persisted_record_reads_back_unchanged() {
    let mut node = bridge_node("x:b", None, None, Some("/p/cfg.json"), Some("/p/logs/o.log"));
    if let NodePayload::Bridge { spawn, .. } = &mut node.payload {
        *spawn = Some(BridgeSpawnDescriptor {
            entry: "/p/main.js".into(),
            args: vec!["serve".into()],
            env: vec![BridgeEnvVar { key: "K".into(), default: None }, BridgeEnvVar { key: "M".into(), default: Some("v".into()) }],
            cwd: None,
        });
    }
    let reg = registry_of(vec![node]);
    let exec = BridgeExecutor::new(&reg);
    let mut store = StateStore::new();
    let info = exec.spawn_descriptor("x:b").unwrap();
    exec.persist_state(&mut store, "x:b", info, "/ws", "/packs", "sid", 1);
    let s = BridgeExecutor::read_state(&store, "/ws", "x:b", 50).unwrap();
    assert_eq!(s.id, "sid");
    assert_eq!(s.node_id, "x:b");
    assert_eq!(s.workspace, "/ws");
    assert_eq!(s.packs_root, "/packs");
    assert_eq!(s.process.entry, "/p/main.js");
    assert_eq!(s.process.args, vec!["serve".to_string()]);
    assert_eq!(s.process.env, vec![("K".to_string(), String::new()), ("M".to_string(), "v".to_string())]);
    assert_eq!(s.process.config_path.as_deref(), Some("/p/cfg.json"));
    assert_eq!(s.logs_path.as_deref(), Some("/p/logs/o.log"));
    assert_eq!(s.updated_at, 50);
    let stored = store.get(&BridgeExecutor::state_file("/ws", "x:b")).unwrap();
    assert_eq!(stored.updated_at, 1);
}

#[test]
fn scaffold_plans_copies_into_entity_auth() {
    let reg = registry_of(vec![bridge_node("x:b", Some("/tpl"), Some("/tpl/run.js"), None, None)]);
    let exec = BridgeExecutor::new(&reg);
    let files = vec!["a.txt".to_string(), "sub/b.txt".to_string()];
    let plan = exec.scaffold("x:b", "/ws", true, Some(&files)).unwrap();
    let pairs: Vec<(String, String)> = plan.copies.iter().map(|c| (c.from.clone(), c.to.clone())).collect();
    assert_eq!(
        pairs,
        vec![
            ("/tpl/a.txt".to_string(), "/ws/entity-auth/a.txt".to_string()),
            ("/tpl/sub/b.txt".to_string(), "/ws/entity-auth/sub/b.txt".to_string()),
        ]
    );
    assert_eq!(plan.report.copied[0].from, "/tpl");
    assert_eq!(plan.report.copied[0].to, "/ws/entity-auth");
    assert_eq!(plan.report.copied[0].count, 2);
    assert_eq!(plan.report.notes, vec!["Overwrite-on-write by default".to_string()]);
    let again = exec.scaffold("x:b", "/ws", true, Some(&files)).unwrap();
    assert_eq!(again.report.copied[0].count, 2);
    assert_eq!(again.copies.len(), plan.copies.len());
}

#[test]
fn scaffold_errors_and_empty_plan() {
    let reg = registry_of(vec![
        bridge_node("x:tpl", Some("/tpl"), None, None, None),
        bridge_node("x:runner", None, Some("/r/run.js"), None, None),
    ]);
    let exec = BridgeExecutor::new(&reg);
    match exec.scaffold("x:tpl", "/missing", false, None) {
        Err(CoreError::TargetNotFound(m)) => assert_eq!(m, "/missing"),
        other => panic!("unexpected {:?}", other.map(|p| p.copies.len())),
    }
    match exec.scaffold("x:tpl", "/ws", true, None) {
        Err(CoreError::MissingSource(m)) => assert_eq!(m, "/tpl"),
        other => panic!("unexpected {:?}", other.map(|p| p.copies.len())),
    }
    let empty = exec.scaffold("x:runner", "/ws", true, None).unwrap();
    assert!(empty.copies.is_empty());
    assert!(empty.report.copied.is_empty());
    assert!(empty.report.notes.is_empty());
    assert_eq!(exec.scaffold_source("x:tpl", "/ws", true).unwrap().as_deref(), Some("/tpl"));
}

#[test]
fn workspace_defaults_to_cwd() {
    assert_eq!(workspace_or_default(&None, "/cwd"), "/cwd");
    assert_eq!(workspace_or_default(&Some("/w".into()), "/cwd"), "/w");
}
