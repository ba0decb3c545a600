use entity_cli::api::{ui_install, UiInstallReq};
use entity_cli::components::{component_sources, parse_prereqs, ComponentsExecutor};
use entity_cli::docs::DocsExecutor;
use entity_cli::error::CoreError;
use entity_cli::model::{Node, NodeKind, NodeMeta, NodePayload, Prerequisite};
use entity_cli::registry::{path_checks, Registry};

fn component_node(id: &str, source_root: &str, names: &[&str]) -> Node {
    Node {
        id: id.into(),
        kind: NodeKind::Component,
        title: "t".into(),
        meta: NodeMeta { section: None, tags: vec![], names: names.iter().map(|s| s.to_string()).collect() },
        prerequisites: vec![],
        payload: NodePayload::Component { source_root: source_root.into() },
    }
}

fn registry_of(nodes: Vec<Node>) -> Registry {
    let present: Vec<Vec<bool>> = nodes.iter().map(|n| vec![true; path_checks(n).len()]).collect();
    Registry::new(nodes, &present).unwrap()
}

fn fixture(names: &[&str]) -> Registry {
    registry_of(vec![component_node("x:comp:install", "/pack/components", names)])
}

#[test]
fn install_mode_all_names_present_errors() {
    let reg = fixture(&["SignIn"]);
    let exec = ComponentsExecutor::new(&reg);
    let err = exec
        .select("x:comp:install", "all", Some(vec!["SignIn".into()]), "/ws", true, true)
        .unwrap_err();
    let msg = err.message();
    assert!(msg.contains("names must be omitted for mode all"));
}

#[test]
fn install_single_copies_files() {
    let reg = fixture(&["SignIn"]);
    let exec = ComponentsExecutor::new(&reg);
    let sel = exec
        .select("x:comp:install", "single", Some(vec!["SignIn".into()]), "/ws", true, true)
        .unwrap();
    assert_eq!(sel.names.len(), 1);
    let sources = component_sources(&sel, "SignIn");
    assert_eq!(sources[0].from, "/pack/components/SignIn");
    assert_eq!(sources[0].to, "/ws/entity-auth/components/SignIn");
    assert!(sources[0].is_dir);
}

#[test]
fn install_multiple_validates_and_copies_many() {
    let reg = fixture(&["SignIn", "UserMenu"]);
    let exec = ComponentsExecutor::new(&reg);
    let sel = exec
        .select(
            "x:comp:install",
            "multiple",
            Some(vec!["SignIn".into(), "UserMenu".into()]),
            "/ws",
            true,
            true,
        )
        .unwrap();
    assert_eq!(sel.names.len(), 2);
    assert_eq!(component_sources(&sel, "SignIn")[0].to, "/ws/entity-auth/components/SignIn");
    assert_eq!(component_sources(&sel, "UserMenu")[0].to, "/ws/entity-auth/components/UserMenu");
}

#[test]
fn install_invalid_names_reports_list() {
    let reg = fixture(&["SignIn"]);
    let exec = ComponentsExecutor::new(&reg);
    let err = exec
        .select(
            "x:comp:install",
            "multiple",
            Some(vec!["Nope".into(), "SignIn".into()]),
            "/ws",
            true,
            true,
        )
        .unwrap_err();
    let msg = err.message();
    assert!(msg.contains("Invalid selection names"));
    match err {
        CoreError::InvalidNames(list) => assert_eq!(list, vec!["Nope".to_string()]),
        other => panic!("unexpected {:?}", other),
    }
}

#[test]
fn install_overwrite_copies_and_counts_files() {
    let reg = fixture(&["AuthProvider"]);
    let exec = ComponentsExecutor::new(&reg);
    let first = exec
        .select("x:comp:install", "single", Some(vec!["AuthProvider".into()]), "/ws", true, true)
        .unwrap();
    let second = exec
        .select("x:comp:install", "single", Some(vec!["AuthProvider".into()]), "/ws", true, true)
        .unwrap();
    assert_eq!(first.names, second.names);
    let a = component_sources(&first, "AuthProvider");
    let b = component_sources(&second, "AuthProvider");
    assert_eq!(a.len(), 20);
    assert_eq!(a.len(), b.len());
    assert_eq!(a[1].from, "/pack/components/auth-provider");
    assert_eq!(a[2].from, "/pack/components/auth_provider");
    assert_eq!(a[3].from, "/pack/components/authprovider");
    assert_eq!(a[4].from, "/pack/components/AuthProvider.tsx");
    assert_eq!(a[4].to, "/ws/entity-auth/components/AuthProvider.tsx");
    assert!(!a[4].is_dir);
    assert_eq!(a[19].from, "/pack/components/authprovider.js");
}

#[test]
fn selection_errors() {
    let reg = fixture(&["SignIn"]);
    let exec = ComponentsExecutor::new(&reg);
    assert!(matches!(
        exec.select("x:comp:install", "single", None, "/ws", true, true),
        Err(CoreError::MissingSelections(k)) if k == vec!["selection.names".to_string()]
    ));
    assert!(matches!(
        exec.select("x:comp:install", "single", Some(vec!["A".into(), "B".into()]), "/ws", true, true),
        Err(CoreError::MissingSelections(_))
    ));
    assert!(matches!(
        exec.select("x:comp:install", "multiple", Some(vec![]), "/ws", true, true),
        Err(CoreError::MissingSelections(_))
    ));
    match exec.select("x:comp:install", "some", None, "/ws", true, true) {
        Err(CoreError::InvalidSelection(m)) => assert_eq!(m, "mode must be one of single|multiple|all"),
        other => panic!("unexpected {:?}", other),
    }
    assert!(matches!(
        exec.select("x:comp:install", "all", None, "/missing", false, true),
        Err(CoreError::TargetNotFound(m)) if m == "/missing"
    ));
    assert!(matches!(
        exec.select("x:comp:install", "all", None, "/ro", true, false),
        Err(CoreError::TargetNotWritable(m)) if m == "/ro"
    ));
    let all = exec.select("x:comp:install", "all", None, "/ws", true, true).unwrap();
    assert_eq!(all.names, vec!["SignIn".to_string()]);
    assert_eq!(all.source_root, "/pack/components");
    assert!(matches!(exec.select("x:none", "all", None, "/ws", true, true), Err(CoreError::UnknownNode(_))));
}

#[test]
fn selection_follows_prerequisite_schema() {
    let mut node = component_node("x:c", "/pack/ui", &["A", "B"]);
    node.prerequisites = vec![
        Prerequisite {
            key: "selection.mode".into(),
            optional: false,
            schema_enum: vec!["single".into(), "all".into()],
            schema_items_enum: vec![],
        },
        Prerequisite {
            key: "selection.names".into(),
            optional: true,
            schema_enum: vec![],
            schema_items_enum: vec!["A".into()],
        },
    ];
    let (modes, names, optional) = parse_prereqs(&node.prerequisites);
    assert_eq!(modes, Some(vec!["single".to_string(), "all".to_string()]));
    assert_eq!(names, Some(vec!["A".to_string()]));
    assert!(optional);
    let reg = registry_of(vec![node]);
    let exec = ComponentsExecutor::new(&reg);
    match exec.select("x:c", "multiple", Some(vec!["A".into()]), "/ws", true, true) {
        Err(CoreError::InvalidSelection(m)) => assert_eq!(m, "mode must be one of single|all"),
        other => panic!("unexpected {:?}", other),
    }
    assert!(matches!(
        exec.select("x:c", "single", Some(vec!["B".into()]), "/ws", true, true),
        Err(CoreError::InvalidNames(v)) if v == vec!["B".to_string()]
    ));
    assert!(exec.select("x:c", "single", Some(vec!["A".into()]), "/ws", true, true).is_ok());
}

#[test]
fn other_required_prerequisites_are_missing() {
    let mut node = component_node("x:c", "/pack/ui", &["A"]);
    node.prerequisites = vec![Prerequisite {
        key: "theme".into(),
        optional: false,
        schema_enum: vec![],
        schema_items_enum: vec![],
    }];
    let reg = registry_of(vec![node]);
    let exec = ComponentsExecutor::new(&reg);
    let err = exec.select("x:c", "all", None, "/ws", true, true).unwrap_err();
    assert_eq!(err.code(), "MISSING_SELECTIONS");
    assert_eq!(err.message(), "Missing selections: [\"theme\"]");
}

fn ui_fixture(names: &[&str]) -> Registry {
    registry_of(vec![component_node("x:comp:install", "/tmp/pack/ui", names)])
}

fn ui_req(mode: Option<&str>, names: Option<Vec<&str>>) -> UiInstallReq {
    UiInstallReq {
        mode: mode.map(|m| m.to_string()),
        names: names.map(|v| v.into_iter().map(|s| s.to_string()).collect()),
        workspace: Some("/ws".into()),
        node_id: Some("x:comp:install".into()),
        packs_path: None,
        product: None,
    }
}

#[test]
fn docs_read_happy_path() {
    let node = Node {
        id: "x:doc:one".into(),
        kind: NodeKind::Doc,
        title: "t".into(),
        meta: NodeMeta { section: None, tags: vec![], names: vec![] },
        prerequisites: vec![],
        payload: NodePayload::Doc { content_path: "/tmp/doc.md".into() },
    };
    let reg = registry_of(vec![node]);
    let exec = DocsExecutor::new(&reg);
    assert_eq!(exec.content_path("x:doc:one").unwrap(), "/tmp/doc.md");
    match exec.content_path("x:comp") {
        Err(CoreError::UnknownNode(id)) => assert_eq!(id, "x:comp"),
        other => panic!("unexpected {:?}", other),
    }
}

#[test]
fn ui_install_mode_all_names_present_errors() {
    let reg = ui_fixture(&["SignIn"]);
    let exec = ComponentsExecutor::new(&reg);
    let err = ui_install(&exec, ui_req(Some("all"), Some(vec!["SignIn"])), "/cwd", true, true).unwrap_err();
    assert!(err.message().contains("names must be omitted for mode all"));
}

#[test]
fn ui_install_single_copies_files() {
    let reg = ui_fixture(&["SignIn"]);
    let exec = ComponentsExecutor::new(&reg);
    let sel = ui_install(&exec, ui_req(Some("single"), Some(vec!["SignIn"])), "/cwd", true, true).unwrap();
    assert_eq!(sel.names.len(), 1);
    assert_eq!(sel.to_root, "/ws/entity-auth/components");
    assert_eq!(component_sources(&sel, "SignIn")[0].to, "/ws/entity-auth/components/SignIn");
}

#[test]
fn ui_install_multiple_validates_and_copies_many() {
    let reg = ui_fixture(&["SignIn", "UserMenu"]);
    let exec = ComponentsExecutor::new(&reg);
    let sel = ui_install(&exec, ui_req(Some("multiple"), Some(vec!["SignIn", "UserMenu"])), "/cwd", true, true).unwrap();
    assert_eq!(sel.names.len(), 2);
    assert_eq!(component_sources(&sel, "UserMenu")[0].from, "/tmp/pack/ui/UserMenu");
}

#[test]
fn ui_install_invalid_names_reports_list() {
    let reg = ui_fixture(&["SignIn"]);
    let exec = ComponentsExecutor::new(&reg);
    let err = ui_install(&exec, ui_req(Some("multiple"), Some(vec!["Nope", "SignIn"])), "/cwd", true, true).unwrap_err();
    assert!(err.message().contains("Invalid selection names"));
    assert_eq!(err.message(), "Invalid selection names: [\"Nope\"]");
}

#[test]
fn ui_install_overwrite_copies_and_counts_files() {
    let reg = ui_fixture(&["AuthProvider"]);
    let exec = ComponentsExecutor::new(&reg);
    let first = ui_install(&exec, ui_req(Some("single"), Some(vec!["AuthProvider"])), "/cwd", true, true).unwrap();
    let second = ui_install(&exec, ui_req(Some("single"), Some(vec!["AuthProvider"])), "/cwd", true, true).unwrap();
    assert_eq!(first.names, second.names);
    assert_eq!(component_sources(&first, "AuthProvider").len(), component_sources(&second, "AuthProvider").len());
}

#[test]
fn ui_install_without_mode_misses_selections() {
    let reg = ui_fixture(&["SignIn"]);
    let exec = ComponentsExecutor::new(&reg);
    match ui_install(&exec, ui_req(None, None), "/cwd", true, true) {
        Err(CoreError::MissingSelections(keys)) => {
            assert_eq!(keys, vec!["selection.mode".to_string(), "selection.names".to_string()])
        }
        other => panic!("unexpected {:?}", other),
    }
    let mut req = ui_req(Some("all"), None);
    req.node_id = None;
    assert!(matches!(ui_install(&exec, req, "/cwd", true, true), Err(CoreError::UnknownNode(id)) if id == "entityauth:components:install"));
    assert_eq!(CoreError::Json("x".into()).code(), "JSON_ERROR");
    assert_eq!(CoreError::Json("bad".into()).message(), "JSON parse error: bad");
}
