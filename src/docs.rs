use vstd::prelude::*;

use crate::error::{CoreError, CoreResult};
use crate::model::{kind_label, NodeKind, NodePayload};
use crate::registry::Registry;

verus! {

/// The content path of a doc payload.
pub open spec fn content_of(p: NodePayload) -> Seq<char> {
    match p {
        NodePayload::Doc { content_path } => content_path@,
        _ => Seq::empty(),
    }
}

/// Finds the content of doc nodes.
pub struct DocsExecutor<'a> {
    registry: &'a Registry,
}

impl<'a> DocsExecutor<'a> {
    pub closed spec fn graph(&self) -> Registry {
        *self.registry
    }

    pub fn new(registry: &'a Registry) -> (r: Self)
        ensures
            r.graph() == *registry,
    {
        DocsExecutor { registry }
    }

    /// The file that holds the content of doc node `node_id`.
    pub fn content_path(&self, node_id: &str) -> (r: CoreResult<String>)
        requires
            self.graph().wf(),
        ensures
            match self.graph().node(node_id@) {
                None => r matches Err(CoreError::UnknownNode(m)) && m@ == node_id@,
                Some(n) => if n.kind != NodeKind::Doc {
                    r matches Err(CoreError::WrongKind { expected, actual }) && expected@ == "doc"@
                        && actual@ == kind_label(n.kind)
                } else {
                    r matches Ok(p) && p@ == content_of(n.payload)
                },
            },
    {
        let node = self.registry.get(node_id)?;
        if node.kind != NodeKind::Doc {
            return Err(
                CoreError::WrongKind { expected: "doc".to_owned(), actual: node.kind.label().to_owned() },
            );
        }
        match &node.payload {
            NodePayload::Doc { content_path } => Ok(content_path.clone()),
            _ => {
                assert(false);
                Err(CoreError::MissingSource(node.id.clone()))
            },
        }
    }
}

} // verus!
