//! The change events an observation produces.

use vstd::prelude::*;

verus! {

/// What a filesystem notification reports.
#[derive(Clone, Copy, Debug, PartialEq, Eq, Structural)]
pub enum ChangeKind {
    Created,
    Modified,
    Removed,
    Renamed,
    Other,
    /// The native layer reported an error while watching; the observation
    /// keeps running and the error is surfaced as an event.
    Error,
}

/// One observed change, immutable once produced.
pub struct ChangeEvent {
    pub kind: ChangeKind,
    /// The affected absolute paths, in the order the native layer gave them.
    pub affected_paths: Vec<String>,
    /// Present exactly when `kind` is [`ChangeKind::Error`].
    pub error_detail: Option<String>,
}

impl ChangeEvent {
    /// An error detail accompanies exactly the error kind, and an error
    /// event carries no paths.
    pub open spec fn wf(self) -> bool {
        &&& self.error_detail is Some <==> self.kind is Error
        &&& self.kind is Error ==> self.affected_paths@.len() == 0
    }

    /// A change event of a non-error kind.
    pub fn change(kind: ChangeKind, affected_paths: Vec<String>) -> (e: ChangeEvent)
        requires
            !(kind is Error),
        ensures
            e.wf(),
            e.kind == kind,
            e.affected_paths == affected_paths,
            e.error_detail is None,
    {
        ChangeEvent { kind, affected_paths, error_detail: None }
    }

    /// An error event carrying the native layer's detail text.
    pub fn error(detail: String) -> (e: ChangeEvent)
        ensures
            e.wf(),
            e.kind is Error,
            e.error_detail == Some(detail),
            e.affected_paths@.len() == 0,
    {
        ChangeEvent { kind: ChangeKind::Error, affected_paths: Vec::new(), error_detail: Some(detail) }
    }
}

} // verus!
