use vstd::prelude::*;

use crate::model::{
    BridgeCommandShape, CommandShapes, DocsCommandShape, GraphPackage, InitCommandShape, Node,
    Platforms, Semantics, SetupCommandShape, UiCommandShape,
};
use crate::paths::{join, joined};
use crate::registry::{views, Registry};
use crate::text::concat2;

verus! {

/// The loaded graph of a packs directory.
#[derive(Debug)]
pub struct Engine {
    registry: Registry,
}

impl Engine {
    pub closed spec fn graph(&self) -> Registry {
        self.registry
    }

    pub fn new(registry: Registry) -> (r: Engine)
        ensures
            r.graph() == registry,
    {
        Engine { registry }
    }

    pub fn registry(&self) -> (r: &Registry)
        ensures
            *r == self.graph(),
    {
        &self.registry
    }
}

/// The descriptor files of a pack, in the order they are loaded.
pub open spec fn pack_files(pack: Seq<char>) -> Seq<Seq<char>> {
    seq![
        joined(joined(pack, "docs"@), "nodes.json"@),
        joined(joined(pack, "components"@), "nodes.json"@),
        joined(joined(pack, "setup"@), "nodes.json"@),
        joined(joined(pack, "bridge"@), "nodes.json"@),
    ]
}

fn nodes_file(pack: &str, section: &str) -> (r: String)
    ensures
        r@ == joined(joined(pack@, section@), "nodes.json"@),
{
    let dir = join(pack, section);
    join(dir.as_str(), "nodes.json")
}

/// The node descriptor files that a pack may hold, in load order.
pub fn pack_node_files(pack: &str) -> (r: Vec<String>)
    ensures
        views(r@) == pack_files(pack@),
{
    let mut v: Vec<String> = Vec::new();
    v.push(nodes_file(pack, "docs"));
    v.push(nodes_file(pack, "components"));
    v.push(nodes_file(pack, "setup"));
    v.push(nodes_file(pack, "bridge"));
    assert(views(v@) =~= pack_files(pack@));
    v
}

/// How each command is invoked through executable `exe`.
pub fn command_shapes(exe: &str) -> (r: CommandShapes)
    ensures
        r.init.template@ == exe@ + " init <product>"@,
        r.docs.template@ == exe@ + " docs read <product> --node <id>"@,
        r.ui.template@ == exe@ + " ui install <product> --mode <single|multiple|all> [--names <Name...>]"@,
        r.setup.template@ == exe@ + " setup run <product> --node <id> [--workspace <path>]"@,
        r.bridge matches Some(b) && b.scaffold_template@ == exe@
            + " bridge scaffold <product> --node <id> [--workspace <path>]"@ && b.start_template@
            == exe@ + " bridge start <product> --node <id> [--workspace <path>]"@
            && b.status_template@ == exe@ + " bridge status <product> --node <id> [--workspace <path>]"@
            && b.stop_template@ == exe@ + " bridge stop <product> --node <id> [--workspace <path>]"@,
{
    CommandShapes {
        init: InitCommandShape { template: concat2(exe, " init <product>") },
        docs: DocsCommandShape { template: concat2(exe, " docs read <product> --node <id>") },
        ui: UiCommandShape {
            template: concat2(exe, " ui install <product> --mode <single|multiple|all> [--names <Name...>]"),
        },
        setup: SetupCommandShape {
            template: concat2(exe, " setup run <product> --node <id> [--workspace <path>]"),
        },
        bridge: Some(
            BridgeCommandShape {
                scaffold_template: concat2(exe, " bridge scaffold <product> --node <id> [--workspace <path>]"),
                start_template: concat2(exe, " bridge start <product> --node <id> [--workspace <path>]"),
                status_template: concat2(exe, " bridge status <product> --node <id> [--workspace <path>]"),
                stop_template: concat2(exe, " bridge stop <product> --node <id> [--workspace <path>]"),
            },
        ),
    }
}

/// The graph handed to agents: the nodes, the command shapes for `exe`, and
/// the fixed semantics (writes go to the working directory and overwrite).
pub fn graph_package(nodes: Vec<Node>, exe: String) -> (r: GraphPackage)
    ensures
        r.nodes == nodes,
        r.executable == exe,
        r.command_shapes.docs.template@ == exe@ + " docs read <product> --node <id>"@,
        r.command_shapes.ui.template@ == exe@
            + " ui install <product> --mode <single|multiple|all> [--names <Name...>]"@,
        r.semantics.writes_to@ == "cwd"@,
        r.semantics.overwrite_on_write,
        views(r.semantics.platforms.os@) == seq!["darwin"@],
        views(r.semantics.platforms.arch@) == seq!["arm64"@],
{
    let command_shapes = command_shapes(exe.as_str());
    let os = vec!["darwin".to_owned()];
    let arch = vec!["arm64".to_owned()];
    assert(views(os@) =~= seq!["darwin"@]);
    assert(views(arch@) =~= seq!["arm64"@]);
    GraphPackage {
        nodes,
        command_shapes,
        executable: exe,
        semantics: Semantics {
            writes_to: "cwd".to_owned(),
            overwrite_on_write: true,
            platforms: Platforms { os, arch },
        },
    }
}

} // verus!
