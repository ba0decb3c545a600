use entity_cli::context::AppContext;
use entity_cli::docs::DocsExecutor;
use entity_cli::engine::{command_shapes, graph_package, pack_node_files, Engine};
use entity_cli::error::{CoreError, ErrorDetails};
use entity_cli::loader::{normalize_payload_paths, validate_node};
use entity_cli::model::{Node, NodeKind, NodeMeta, NodePayload, Prerequisite};
use entity_cli::registry::{path_checks, Registry};
use entity_cli::setup::SetupExecutor;

fn meta() -> NodeMeta {
    NodeMeta { section: None, tags: vec![], names: vec![] }
}

fn doc_node(id: &str, path: &str) -> Node {
    Node {
        id: id.into(),
        kind: NodeKind::Doc,
        title: "t".into(),
        meta: meta(),
        prerequisites: vec![],
        payload: NodePayload::Doc { content_path: path.into() },
    }
}

fn all_present(nodes: &[Node]) -> Vec<Vec<bool>> {
    nodes.iter().map(|n| vec![true; path_checks(n).len()]).collect()
}

#[test]
fn read_happy_path() {
    let nodes = vec![doc_node("x:doc:one", "/tmp/doc.md")];
    let present = all_present(&nodes);
    let reg = Registry::new(nodes, &present).unwrap();
    let exec = DocsExecutor::new(&reg);
    assert_eq!(exec.content_path("x:doc:one").unwrap(), "/tmp/doc.md");
    assert!(matches!(exec.content_path("x:doc:two"), Err(CoreError::UnknownNode(_))));
}

#[test]
fn registry_rejects_duplicates_and_missing_paths() {
    let mut reg = Registry::empty();
    let n = doc_node("x:a", "/a.md");
    assert!(reg.insert(n, &vec![true]).is_ok());
    match reg.insert(doc_node("x:a", "/b.md"), &vec![true]) {
        Err(CoreError::InvalidDescriptor(m)) => assert_eq!(m, "duplicate node id x:a"),
        other => panic!("unexpected {:?}", other),
    }
    match reg.insert(doc_node("x:b", "/b.md"), &vec![false]) {
        Err(CoreError::InvalidDescriptor(m)) => {
            assert_eq!(m, "doc content path not found for node x:b: /b.md")
        }
        other => panic!("unexpected {:?}", other),
    }
    let mut dup = doc_node("x:c", "/c.md");
    let p = Prerequisite { key: "k".into(), optional: false, schema_enum: vec![], schema_items_enum: vec![] };
    dup.prerequisites = vec![p.clone(), p];
    match reg.insert(dup, &vec![true]) {
        Err(CoreError::InvalidDescriptor(m)) => assert_eq!(m, "duplicate prerequisite key k on node x:c"),
        other => panic!("unexpected {:?}", other),
    }
    let mut mismatched = doc_node("x:d", "/d.md");
    mismatched.kind = NodeKind::Bridge;
    assert!(matches!(reg.insert(mismatched, &vec![true]), Err(CoreError::InvalidDescriptor(_))));
    let zero = Node {
        id: "x:z".into(),
        kind: NodeKind::Bridge,
        title: "z".into(),
        meta: meta(),
        prerequisites: vec![],
        payload: NodePayload::Bridge {
            template_root: None,
            runner: Some("/r.js".into()),
            config_template: None,
            spawn: None,
            logs_path: Some("/logs/a.log".into()),
            heartbeat_interval_ms: Some(0),
        },
    };
    let checks = path_checks(&zero);
    assert_eq!(checks.len(), 2);
    assert!(checks[1].parent_only);
    match reg.insert(zero, &vec![true, true]) {
        Err(CoreError::InvalidDescriptor(m)) => {
            assert_eq!(m, "bridge heartbeat interval must be > 0 for node x:z")
        }
        other => panic!("unexpected {:?}", other),
    }
}

#[test]
fn registry_indexes_kinds_tags_and_sections() {
    let mut a = doc_node("x:a", "/a.md");
    a.meta.tags = vec!["intro".into(), "setup".into()];
    a.meta.section = Some("Setup".into());
    let mut b = doc_node("x:b", "/b.md");
    b.meta.tags = vec!["intro".into()];
    let nodes = vec![a, b];
    let present = all_present(&nodes);
    let reg = Registry::new(nodes, &present).unwrap();
    let (docs, comps, bridges) = reg.nodes_by_kind();
    assert_eq!(docs, &["x:a".to_string(), "x:b".to_string()][..]);
    assert!(comps.is_empty());
    assert!(bridges.is_empty());
    assert_eq!(reg.nodes_by_tag("intro").unwrap(), &vec!["x:a".to_string(), "x:b".to_string()]);
    assert_eq!(reg.nodes_by_tag("setup").unwrap(), &vec!["x:a".to_string()]);
    assert!(reg.nodes_by_tag("none").is_none());
    assert_eq!(reg.nodes_by_section("Setup").unwrap(), &vec!["x:a".to_string()]);
    assert_eq!(reg.get("x:b").unwrap().id, "x:b");
    let engine = Engine::new(reg);
    assert!(engine.registry().get("x:a").is_ok());
}

#[test]
fn loader_validates_and_anchors_paths() {
    assert!(matches!(validate_node(&doc_node("x:e", "")), Err(CoreError::InvalidDescriptor(m)) if m == "doc node x:e missing content_path"));
    assert!(validate_node(&doc_node("x:e", "a.md")).is_ok());
    let mut comp = doc_node("x:c", "");
    comp.kind = NodeKind::Component;
    comp.payload = NodePayload::Component { source_root: String::new() };
    assert!(matches!(validate_node(&comp), Err(CoreError::InvalidDescriptor(m)) if m == "component node x:c missing source_root"));
    let mut setup = doc_node("x:s", "");
    setup.kind = NodeKind::Setup;
    setup.payload = NodePayload::Setup { template_root: String::new(), commands: None };
    assert!(matches!(validate_node(&setup), Err(CoreError::InvalidDescriptor(m)) if m == "setup node x:s missing template_root"));
    let mut rel = doc_node("x:r", "content/a.md");
    normalize_payload_paths(&mut rel, "/packs/p/docs");
    match &rel.payload {
        NodePayload::Doc { content_path } => assert_eq!(content_path, "/packs/p/docs/content/a.md"),
        _ => panic!("payload kind changed"),
    }
    let mut abs = doc_node("x:r", "/abs/a.md");
    normalize_payload_paths(&mut abs, "/packs/p/docs");
    match &abs.payload {
        NodePayload::Doc { content_path } => assert_eq!(content_path, "/abs/a.md"),
        _ => panic!("payload kind changed"),
    }
    let empty_bridge = Node {
        id: "x:b".into(),
        kind: NodeKind::Bridge,
        title: "b".into(),
        meta: meta(),
        prerequisites: vec![],
        payload: NodePayload::Bridge {
            template_root: None,
            runner: None,
            config_template: None,
            spawn: None,
            logs_path: None,
            heartbeat_interval_ms: None,
        },
    };
    match validate_node(&empty_bridge) {
        Err(CoreError::InvalidDescriptor(m)) => {
            assert_eq!(m, "bridge node x:b must specify templateRoot, runner, or spawn entry")
        }
        other => panic!("unexpected {:?}", other),
    }
}

#[test]
fn bootstrap_emits_graph_with_command_shapes() {
    let shapes = command_shapes("entity-cli");
    assert!(shapes.docs.template.contains("entity-cli docs read"));
    assert!(shapes.ui.template.contains("entity-cli ui install"));
    assert_eq!(shapes.init.template, "entity-cli init <product>");
    let graph = graph_package(vec![doc_node("x:docs:a", "/a.md")], "entity-cli".into());
    assert!(!graph.nodes.is_empty());
    assert_eq!(graph.semantics.writes_to, "cwd");
    assert_eq!(
        pack_node_files("/packs/entity-auth"),
        vec![
            "/packs/entity-auth/docs/nodes.json".to_string(),
            "/packs/entity-auth/components/nodes.json".to_string(),
            "/packs/entity-auth/setup/nodes.json".to_string(),
            "/packs/entity-auth/bridge/nodes.json".to_string(),
        ]
    );
}

#[test]
fn setup_plan_splits_commands_and_copies() {
    let node = Node {
        id: "x:setup".into(),
        kind: NodeKind::Setup,
        title: "s".into(),
        meta: meta(),
        prerequisites: vec![],
        payload: NodePayload::Setup {
            template_root: "/tpl".into(),
            commands: Some(vec!["npm  install  left-pad".into(), "   ".into(), "git init".into()]),
        },
    };
    let nodes = vec![node];
    let present = all_present(&nodes);
    let reg = Registry::new(nodes, &present).unwrap();
    let exec = SetupExecutor::new(&reg);
    let plan = exec.plan("x:setup", "/ws", true, true).unwrap();
    assert_eq!(
        plan.commands,
        vec![
            vec!["npm".to_string(), "install".to_string(), "left-pad".to_string()],
            vec!["git".to_string(), "init".to_string()]
        ]
    );
    assert_eq!(plan.to_root, "/ws/entity-auth");
    let (copies, report) = SetupExecutor::finish(&plan, vec!["git [\"init\"]".into()], &vec!["x.txt".into()]);
    assert_eq!(copies[0].from, "/tpl/x.txt");
    assert_eq!(copies[0].to, "/ws/entity-auth/x.txt");
    assert_eq!(report.copied[0].count, 1);
    assert!(matches!(exec.plan("x:setup", "/ws", true, false), Err(CoreError::TargetNotWritable(_))));
}

#[test]
fn packs_resolution_order() {
    let default_ctx = AppContext::new(None);
    assert!(default_ctx.consults_config(false));
    assert!(!default_ctx.consults_config(true));
    assert_eq!(default_ctx.resolve_packs(Some("/env".into()), Some("/cfg".into())), "/env");
    assert_eq!(default_ctx.resolve_packs(None, Some("/cfg".into())), "/cfg");
    assert_eq!(default_ctx.resolve_packs(None, None), "packs");
    let flagged = AppContext::new(Some("/mine".into()));
    assert_eq!(flagged.resolve_packs(Some("/env".into()), None), "/mine");
    assert!(!flagged.consults_config(false));
}

#[test]
fn error_codes_messages_and_details() {
    let e = CoreError::PacksNotFound("/p".into());
    assert_eq!(e.code(), "PACKS_NOT_FOUND");
    assert_eq!(e.message(), "Packs path not found or unreadable: /p");
    assert!(matches!(e.details(), Some(ErrorDetails::PacksPath(Some(p))) if p == "/p"));
    let w = CoreError::WrongKind { expected: "doc".into(), actual: "Bridge".into() };
    assert_eq!(w.message(), "Wrong node kind: expected doc, got Bridge");
    let env = w.envelope(None);
    assert_eq!(env.error.code, "WRONG_KIND");
    assert!(env.error.details.is_none());
    assert_eq!(CoreError::InvalidNames(vec!["a".into()]).code(), "INVALID_SELECTION");
    assert_eq!(CoreError::Io("x".into()).code(), "IO_ERROR");
}
