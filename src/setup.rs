use vstd::prelude::*;

use crate::bridge::planned_copies;
use crate::components::{copy_views, CopyItemReport, FileCopy};
use crate::error::{CoreError, CoreResult};
use crate::model::{kind_label, NodeKind, NodePayload};
use crate::paths::{join, joined};
use crate::registry::{views, Registry};

verus! {

/// The words of a command line, split at whitespace as
/// `str::split_whitespace` splits it.
pub uninterp spec fn words_of(s: Seq<char>) -> Seq<Seq<char>>;

/// Relies on str::split_whitespace: the whitespace-separated words, in order.
#[verifier::external_body]
fn split_words(s: &str) -> (r: Vec<String>)
    ensures
        views(r@) == words_of(s@),
{
    s.split_whitespace().map(|w| w.to_string()).collect()
}

/// What running a setup node did: the commands it ran, what it copied, and
/// notes for the caller.
#[derive(Debug, Clone)]
pub struct SetupReport {
    pub scaffolded: Vec<String>,
    pub copied: Vec<CopyItemReport>,
    pub notes: Vec<String>,
}

/// What running a setup node does: the commands to run in the workspace,
/// each as program and arguments, then the template tree to copy and where.
#[derive(Debug, Clone)]
pub struct SetupPlan {
    pub commands: Vec<Vec<String>>,
    pub template_root: String,
    pub to_root: String,
}

/// The commands of a setup payload as word lists, blank commands left out.
pub open spec fn command_words(cmds: Seq<String>) -> Seq<Seq<Seq<char>>>
    decreases cmds.len(),
{
    if cmds.len() == 0 {
        Seq::empty()
    } else {
        let rest = command_words(cmds.drop_last());
        let w = words_of(cmds.last()@);
        if w.len() > 0 {
            rest.push(w)
        } else {
            rest
        }
    }
}

pub open spec fn setup_commands(p: NodePayload) -> Seq<Seq<Seq<char>>> {
    match p {
        NodePayload::Setup { commands: Some(c), .. } => command_words(c@),
        _ => Seq::empty(),
    }
}

pub open spec fn setup_template(p: NodePayload) -> Seq<char> {
    match p {
        NodePayload::Setup { template_root, .. } => template_root@,
        _ => Seq::empty(),
    }
}

pub open spec fn command_views(v: Seq<Vec<String>>) -> Seq<Seq<Seq<char>>> {
    v.map_values(|c: Vec<String>| views(c@))
}

fn split_commands(cmds: &Vec<String>) -> (r: Vec<Vec<String>>)
    ensures
        command_views(r@) == command_words(cmds@),
{
    let mut out: Vec<Vec<String>> = Vec::new();
    let mut i: usize = 0;
    while i < cmds.len()
        invariant
            i <= cmds.len(),
            command_views(out@) == command_words(cmds@.subrange(0, i as int)),
        decreases cmds.len() - i,
    {
        assert(cmds@.subrange(0, i + 1).drop_last() =~= cmds@.subrange(0, i as int));
        let words = split_words(cmds[i].as_str());
        if words.len() > 0 {
            let ghost w = views(words@);
            out.push(words);
            assert(command_views(out@) =~= command_words(cmds@.subrange(0, i as int)).push(w));
        }
        i = i + 1;
    }
    assert(cmds@.subrange(0, cmds.len() as int) =~= cmds@);
    out
}

/// Runs setup nodes: scaffold commands, then a template copy.
pub struct SetupExecutor<'a> {
    registry: &'a Registry,
}

impl<'a> SetupExecutor<'a> {
    pub closed spec fn graph(&self) -> Registry {
        *self.registry
    }

    pub fn new(registry: &'a Registry) -> (r: Self)
        ensures
            r.graph() == *registry,
    {
        SetupExecutor { registry }
    }

    /// Checks a run of setup node `node_id` in `workspace` and plans it:
    /// its commands, then a copy of its template root into
    /// `<workspace>/entity-auth`.
    pub fn plan(&self, node_id: &str, workspace: &str, workspace_exists: bool, workspace_writable: bool) -> (r:
        CoreResult<SetupPlan>)
        requires
            self.graph().wf(),
        ensures
            match self.graph().node(node_id@) {
                None => r matches Err(CoreError::UnknownNode(m)) && m@ == node_id@,
                Some(n) => if n.kind != NodeKind::Setup {
                    r matches Err(CoreError::WrongKind { expected, actual }) && expected@ == "setup"@
                        && actual@ == kind_label(n.kind)
                } else if !workspace_exists {
                    r matches Err(CoreError::TargetNotFound(m)) && m@ == workspace@
                } else if !workspace_writable {
                    r matches Err(CoreError::TargetNotWritable(m)) && m@ == workspace@
                } else {
                    r matches Ok(p) && command_views(p.commands@) == setup_commands(n.payload)
                        && p.template_root@ == setup_template(n.payload) && p.to_root@ == joined(
                        workspace@,
                        "entity-auth"@,
                    )
                },
            },
    {
        let node = self.registry.get(node_id)?;
        if node.kind != NodeKind::Setup {
            return Err(
                CoreError::WrongKind { expected: "setup".to_owned(), actual: node.kind.label().to_owned() },
            );
        }
        if !workspace_exists {
            return Err(CoreError::TargetNotFound(workspace.to_owned()));
        }
        if !workspace_writable {
            return Err(CoreError::TargetNotWritable(workspace.to_owned()));
        }
        match &node.payload {
            NodePayload::Setup { template_root, commands } => {
                let cmds = match commands {
                    Some(c) => split_commands(c),
                    None => {
                        let v: Vec<Vec<String>> = Vec::new();
                        assert(command_views(v@) =~= Seq::<Seq<Seq<char>>>::empty());
                        v
                    },
                };
                Ok(
                    SetupPlan {
                        commands: cmds,
                        template_root: template_root.clone(),
                        to_root: join(workspace, "entity-auth"),
                    },
                )
            },
            _ => {
                assert(false);
                Err(CoreError::TargetNotFound(workspace.to_owned()))
            },
        }
    }

    /// The copies that bring `files` (relative to the template root) into
    /// place, and the report of the run, given the commands that ran.
    pub fn finish(plan: &SetupPlan, scaffolded: Vec<String>, files: &Vec<String>) -> (r: (Vec<FileCopy>, SetupReport))
        ensures
            copy_views(r.0@) == planned_copies(plan.template_root@, plan.to_root@, views(files@)),
            r.1.scaffolded == scaffolded,
            r.1.copied@.len() == 1,
            r.1.copied@[0].from@ == plan.template_root@,
            r.1.copied@[0].to@ == plan.to_root@,
            r.1.copied@[0].count == files@.len(),
            views(r.1.notes@) == seq!["Overwrite-on-write by default"@],
    {
        let mut copies: Vec<FileCopy> = Vec::new();
        let mut i: usize = 0;
        while i < files.len()
            invariant
                i <= files.len(),
                copy_views(copies@) == planned_copies(
                    plan.template_root@,
                    plan.to_root@,
                    views(files@).subrange(0, i as int),
                ),
            decreases files.len() - i,
        {
            let from = join(plan.template_root.as_str(), files[i].as_str());
            let to = join(plan.to_root.as_str(), files[i].as_str());
            copies.push(FileCopy { from, to });
            assert(views(files@).subrange(0, i + 1) =~= views(files@).subrange(0, i as int).push(files@[i as int]@));
            assert(copy_views(copies@) =~= planned_copies(
                plan.template_root@,
                plan.to_root@,
                views(files@).subrange(0, i as int),
            ).push((joined(plan.template_root@, files@[i as int]@), joined(plan.to_root@, files@[i as int]@))));
            i = i + 1;
        }
        assert(views(files@).subrange(0, files.len() as int) =~= views(files@));
        let mut copied: Vec<CopyItemReport> = Vec::new();
        copied.push(
            CopyItemReport { from: plan.template_root.clone(), to: plan.to_root.clone(), count: files.len() },
        );
        let mut notes: Vec<String> = Vec::new();
        notes.push("Overwrite-on-write by default".to_owned());
        assert(views(notes@) =~= seq!["Overwrite-on-write by default"@]);
        (copies, SetupReport { scaffolded, copied, notes })
    }
}

} // verus!
