use vstd::prelude::*;

verus! {

/// The four kinds of node in a product graph.
#[derive(Debug, Clone, Copy, PartialEq, Eq, Structural)]
pub enum NodeKind {
    Doc,
    Component,
    Setup,
    Bridge,
}

/// The name under which a kind is reported in errors.
pub open spec fn kind_label(k: NodeKind) -> Seq<char> {
    match k {
        NodeKind::Doc => "Doc"@,
        NodeKind::Component => "Component"@,
        NodeKind::Setup => "Setup"@,
        NodeKind::Bridge => "Bridge"@,
    }
}

impl NodeKind {
    pub fn label(&self) -> (r: &'static str)
        ensures
            r@ == kind_label(*self),
    {
        match self {
            NodeKind::Doc => "Doc",
            NodeKind::Component => "Component",
            NodeKind::Setup => "Setup",
            NodeKind::Bridge => "Bridge",
        }
    }
}

/// One environment variable that a bridge runtime expects, with an optional
/// placeholder value.
#[derive(Debug, Clone)]
pub struct BridgeEnvVar {
    pub key: String,
    pub default: Option<String>,
}

/// A structured description of how to launch a bridge runtime.
#[derive(Debug, Clone)]
pub struct BridgeSpawnDescriptor {
    /// Runner entry file
    pub entry: String,
    pub args: Vec<String>,
    pub env: Vec<BridgeEnvVar>,
    pub cwd: Option<String>,
}

/// What a node carries; the variant always agrees with the node's kind.
#[allow(inconsistent_fields)]
#[derive(Debug, Clone)]
pub enum NodePayload {
    Doc { content_path: String },
    Component { source_root: String },
    Setup { template_root: String, commands: Option<Vec<String>> },
    Bridge {
        template_root: Option<String>,
        runner: Option<String>,
        config_template: Option<String>,
        spawn: Option<BridgeSpawnDescriptor>,
        logs_path: Option<String>,
        heartbeat_interval_ms: Option<u64>,
    },
}

/// The kind that a payload variant belongs to.
pub open spec fn payload_kind(p: NodePayload) -> NodeKind {
    match p {
        NodePayload::Doc { .. } => NodeKind::Doc,
        NodePayload::Component { .. } => NodeKind::Component,
        NodePayload::Setup { .. } => NodeKind::Setup,
        NodePayload::Bridge { .. } => NodeKind::Bridge,
    }
}

/// The descriptive metadata of a node that the graph indexes and reads.
#[derive(Debug, Clone)]
pub struct NodeMeta {
    pub section: Option<String>,
    pub tags: Vec<String>,
    pub names: Vec<String>,
}

/// An input that an operation on a node asks its caller for. `schema_enum`
/// holds the string values that the schema's `enum` allows, and
/// `schema_items_enum` those of `items.enum`.
#[derive(Debug, Clone)]
pub struct Prerequisite {
    pub key: String,
    pub optional: bool,
    pub schema_enum: Vec<String>,
    pub schema_items_enum: Vec<String>,
}

/// One declarative unit of the product graph.
#[derive(Debug, Clone)]
pub struct Node {
    pub id: String,
    pub kind: NodeKind,
    pub title: String,
    pub meta: NodeMeta,
    pub prerequisites: Vec<Prerequisite>,
    pub payload: NodePayload,
}

impl Node {
    /// The payload is of the node's kind.
    pub open spec fn kind_agrees(&self) -> bool {
        payload_kind(self.payload) == self.kind
    }
}

/// The loaded graph together with how to invoke each command.
#[derive(Debug, Clone)]
pub struct GraphPackage {
    pub nodes: Vec<Node>,
    pub command_shapes: CommandShapes,
    /// Name of the executable to use in examples
    pub executable: String,
    pub semantics: Semantics,
}

#[derive(Debug, Clone)]
pub struct CommandShapes {
    pub init: InitCommandShape,
    pub docs: DocsCommandShape,
    pub ui: UiCommandShape,
    pub setup: SetupCommandShape,
    pub bridge: Option<BridgeCommandShape>,
}

#[derive(Debug, Clone)]
pub struct DocsCommandShape {
    pub template: String,
}

#[derive(Debug, Clone)]
pub struct UiCommandShape {
    pub template: String,
}

#[derive(Debug, Clone)]
pub struct InitCommandShape {
    pub template: String,
}

#[derive(Debug, Clone)]
pub struct SetupCommandShape {
    pub template: String,
}

#[derive(Debug, Clone)]
pub struct BridgeCommandShape {
    pub scaffold_template: String,
    pub start_template: String,
    pub status_template: String,
    pub stop_template: String,
}

#[derive(Debug, Clone)]
pub struct Semantics {
    /// Where write operations target by default
    pub writes_to: String,
    /// Whether component installs overwrite existing files
    pub overwrite_on_write: bool,
    pub platforms: Platforms,
}

#[derive(Debug, Clone)]
pub struct Platforms {
    pub os: Vec<String>,
    pub arch: Vec<String>,
}

} // verus!
