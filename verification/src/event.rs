//! Change events: what the destination has to be told.

use vstd::prelude::*;

verus! {

/// One change to carry to the destination. The path is the one the secret has
/// at the source; the value is carried as it came and never looked into.
#[derive(Clone, Debug, PartialEq, Eq)]
pub enum ChangeEvent {
    /// The secret at `path` was created or updated and now holds `value`.
    Put { path: String, value: String },
    /// The secret at `path` was removed.
    Delete { path: String },
}

/// A change event as contracts see it.
pub enum ChangeEventView {
    Put { path: Seq<char>, value: Seq<char> },
    Delete { path: Seq<char> },
}

impl ChangeEventView {
    /// The source path that the event is about.
    pub open spec fn path(self) -> Seq<char> {
        match self {
            ChangeEventView::Put { path, .. } => path,
            ChangeEventView::Delete { path } => path,
        }
    }
}

impl View for ChangeEvent {
    type V = ChangeEventView;

    open spec fn view(&self) -> ChangeEventView {
        match self {
            ChangeEvent::Put { path, value } => ChangeEventView::Put {
                path: path@,
                value: value@,
            },
            ChangeEvent::Delete { path } => ChangeEventView::Delete { path: path@ },
        }
    }
}

impl DeepView for ChangeEvent {
    type V = ChangeEventView;

    open spec fn deep_view(&self) -> ChangeEventView {
        self@
    }
}

impl ChangeEvent {
    /// The source path that the event is about.
    pub fn path(&self) -> (r: &str)
        ensures
            r@ == self@.path(),
    {
        match self {
            ChangeEvent::Put { path, .. } => path.as_str(),
            ChangeEvent::Delete { path } => path.as_str(),
        }
    }
}

} // verus!
