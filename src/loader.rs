use vstd::prelude::*;

use crate::bridge::opt_view;
use crate::error::{CoreError, CoreResult};
use crate::model::{BridgeSpawnDescriptor, Node, NodePayload};
use crate::paths::{join, joined};
use crate::text::concat3;

verus! {

/// Whether a path is relative, as `std::path::Path::is_relative` decides it.
pub uninterp spec fn relative(p: Seq<char>) -> bool;

/// Relies on std::path::Path::is_relative: whether the path is relative.
#[verifier::external_body]
fn is_relative(p: &str) -> (r: bool)
    ensures
        r == relative(p@),
{
    std::path::Path::new(p).is_relative()
}

/// A path of a descriptor file made absolute against `base`: a relative path
/// is joined onto `base`, an absolute one is kept.
pub open spec fn anchored(p: Seq<char>, base: Seq<char>) -> Seq<char> {
    if relative(p) {
        joined(base, p)
    } else {
        p
    }
}

pub open spec fn anchored_opt(p: Option<Seq<char>>, base: Seq<char>) -> Option<Seq<char>> {
    match p {
        Some(q) => Some(anchored(q, base)),
        None => None,
    }
}

fn anchor(p: &mut String, base: &str)
    ensures
        final(p)@ == anchored(old(p)@, base@),
{
    if is_relative(p.as_str()) {
        *p = join(base, p.as_str());
    }
}

fn anchor_opt(p: &mut Option<String>, base: &str)
    ensures
        opt_view(*final(p)) == anchored_opt(opt_view(*old(p)), base@),
{
    if let Some(q) = p {
        anchor(q, base);
    }
}

/// Makes the entry of a spawn descriptor absolute against `base_dir`.
pub fn normalize_spawn_paths(descriptor: &mut BridgeSpawnDescriptor, base_dir: &str)
    ensures
        final(descriptor).entry@ == anchored(old(descriptor).entry@, base_dir@),
        final(descriptor).args == old(descriptor).args,
        final(descriptor).env == old(descriptor).env,
        final(descriptor).cwd == old(descriptor).cwd,
{
    anchor(&mut descriptor.entry, base_dir);
}

/// The paths of a payload, each made absolute against `base`.
pub open spec fn payload_anchored(old: NodePayload, new: NodePayload, base: Seq<char>) -> bool {
    match (old, new) {
        (NodePayload::Doc { content_path: a }, NodePayload::Doc { content_path: b }) => b@ == anchored(a@, base),
        (NodePayload::Component { source_root: a }, NodePayload::Component { source_root: b }) => b@
            == anchored(a@, base),
        (NodePayload::Setup { template_root: a, commands: c }, NodePayload::Setup { template_root: b, commands: d }) =>
            b@ == anchored(a@, base) && c == d,
        (
            NodePayload::Bridge { template_root: t0, runner: r0, config_template: c0, spawn: s0, logs_path: l0, heartbeat_interval_ms: h0 },
            NodePayload::Bridge { template_root: t1, runner: r1, config_template: c1, spawn: s1, logs_path: l1, heartbeat_interval_ms: h1 },
        ) => opt_view(t1) == anchored_opt(opt_view(t0), base) && opt_view(r1) == anchored_opt(opt_view(r0), base)
            && opt_view(c1) == anchored_opt(opt_view(c0), base) && opt_view(l1) == anchored_opt(
            opt_view(l0),
            base,
        ) && h1 == h0 && match (s0, s1) {
            (Some(d0), Some(d1)) => d1.entry@ == anchored(d0.entry@, base) && d1.args == d0.args
                && d1.env == d0.env && d1.cwd == d0.cwd,
            (None, None) => true,
            _ => false,
        },
        _ => false,
    }
}

/// Rewrites the paths of a node's payload that are relative so that they are
/// relative to `base_dir`, the directory of the descriptor file.
pub fn normalize_payload_paths(node: &mut Node, base_dir: &str)
    ensures
        payload_anchored(old(node).payload, final(node).payload, base_dir@),
        final(node).id == old(node).id,
        final(node).kind == old(node).kind,
{
    match &mut node.payload {
        NodePayload::Doc { content_path } => anchor(content_path, base_dir),
        NodePayload::Component { source_root } => anchor(source_root, base_dir),
        NodePayload::Setup { template_root, .. } => anchor(template_root, base_dir),
        NodePayload::Bridge { template_root, runner, config_template, spawn, logs_path, .. } => {
            anchor_opt(template_root, base_dir);
            anchor_opt(runner, base_dir);
            anchor_opt(config_template, base_dir);
            if let Some(d) = spawn {
                normalize_spawn_paths(d, base_dir);
            }
            anchor_opt(logs_path, base_dir);
        },
    }
}

/// A node descriptor is complete: a doc names its content, a component its
/// source root, a setup its template root, and a bridge at least one of a
/// template root, a runner or a spawn entry.
pub open spec fn node_complete(n: Node) -> bool {
    match n.payload {
        NodePayload::Doc { content_path } => content_path@.len() > 0,
        NodePayload::Component { source_root } => source_root@.len() > 0,
        NodePayload::Setup { template_root, .. } => template_root@.len() > 0,
        NodePayload::Bridge { template_root, runner, spawn, .. } => template_root is Some || runner is Some
            || spawn is Some,
    }
}

/// What an incomplete node descriptor is rejected with.
pub open spec fn incomplete_message(n: Node) -> Seq<char> {
    match n.payload {
        NodePayload::Doc { .. } => "doc node "@ + n.id@ + " missing content_path"@,
        NodePayload::Component { .. } => "component node "@ + n.id@ + " missing source_root"@,
        NodePayload::Setup { .. } => "setup node "@ + n.id@ + " missing template_root"@,
        NodePayload::Bridge { .. } => "bridge node "@ + n.id@
            + " must specify templateRoot, runner, or spawn entry"@,
    }
}

/// Accepts a complete node descriptor; rejects an incomplete one with
/// `InvalidDescriptor`.
pub fn validate_node(node: &Node) -> (r: CoreResult<()>)
    ensures
        r is Ok <==> node_complete(*node),
        r is Err ==> (r matches Err(CoreError::InvalidDescriptor(m)) && m@ == incomplete_message(*node)),
{
    match &node.payload {
        NodePayload::Doc { content_path } => {
            if content_path.unicode_len() == 0 {
                return Err(CoreError::InvalidDescriptor(concat3("doc node ", node.id.as_str(), " missing content_path")));
            }
        },
        NodePayload::Component { source_root } => {
            if source_root.unicode_len() == 0 {
                return Err(
                    CoreError::InvalidDescriptor(concat3("component node ", node.id.as_str(), " missing source_root")),
                );
            }
        },
        NodePayload::Setup { template_root, .. } => {
            if template_root.unicode_len() == 0 {
                return Err(
                    CoreError::InvalidDescriptor(concat3("setup node ", node.id.as_str(), " missing template_root")),
                );
            }
        },
        NodePayload::Bridge { template_root, runner, spawn, .. } => {
            if template_root.is_none() && runner.is_none() && spawn.is_none() {
                return Err(
                    CoreError::InvalidDescriptor(
                        concat3(
                            "bridge node ",
                            node.id.as_str(),
                            " must specify templateRoot, runner, or spawn entry",
                        ),
                    ),
                );
            }
        },
    }
    Ok(())
}

} // verus!
