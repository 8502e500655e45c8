use vstd::prelude::*;

verus! {

/// Classification of one reported filesystem change.
///
/// A closed set of kinds: what the OS layer reports is carried as it is,
/// and the predicates below test it without collapsing information. `Any`
/// is the wildcard classification an OS layer reports when it does not
/// classify a change further.
#[derive(Clone, Copy, Debug, PartialEq, Eq, Structural)]
pub enum EventKind {
    Access,
    Create,
    Modify,
    Remove,
    Other,
    Any,
}

impl EventKind {
    /// Whether this is the wildcard classification.
    pub fn is_any(&self) -> (r: bool)
        ensures
            r == (self is Any),
    {
        match self {
            EventKind::Any => true,
            _ => false,
        }
    }

    /// Whether the change was an access (a read, an open, a close).
    pub fn is_access(&self) -> (r: bool)
        ensures
            r == (self is Access),
    {
        match self {
            EventKind::Access => true,
            _ => false,
        }
    }

    /// Whether the change created a file or directory.
    pub fn is_create(&self) -> (r: bool)
        ensures
            r == (self is Create),
    {
        match self {
            EventKind::Create => true,
            _ => false,
        }
    }

    /// Whether the change modified contents or metadata.
    pub fn is_modify(&self) -> (r: bool)
        ensures
            r == (self is Modify),
    {
        match self {
            EventKind::Modify => true,
            _ => false,
        }
    }

    /// Whether the change removed a file or directory.
    pub fn is_remove(&self) -> (r: bool)
        ensures
            r == (self is Remove),
    {
        match self {
            EventKind::Remove => true,
            _ => false,
        }
    }

    /// Whether the change falls outside the other classifications.
    pub fn is_other(&self) -> (r: bool)
        ensures
            r == (self is Other),
    {
        match self {
            EventKind::Other => true,
            _ => false,
        }
    }
}

/// One reported filesystem change: what happened and which paths it touched.
///
/// For a rename, `paths` holds both the source and the destination, in the
/// order the OS layer gave them. A value is built once and read thereafter;
/// it is owned by the queue until polled, then by the caller.
pub struct WatchEvent {
    /// The change's classification.
    pub kind: EventKind,
    /// The filesystem paths involved in the change, in reported order.
    pub paths: Vec<String>,
}

impl WatchEvent {
    /// The affected paths, each as its sequence of characters.
    pub open spec fn paths_view(&self) -> Seq<Seq<char>> {
        self.paths.deep_view()
    }

    pub fn new(kind: EventKind, paths: Vec<String>) -> (e: WatchEvent)
        ensures
            e.kind == kind,
            e.paths_view() == paths.deep_view(),
    {
        WatchEvent { kind, paths }
    }

    /// The change's classification.
    pub fn kind(&self) -> (k: EventKind)
        ensures
            k == self.kind,
    {
        self.kind
    }

    /// How many paths the change touched.
    pub fn path_count(&self) -> (n: usize)
        ensures
            n == self.paths_view().len(),
    {
        self.paths.len()
    }

    /// The affected path at position `i`, in reported order.
    pub fn path_at(&self, i: usize) -> (p: &String)
        requires
            i < self.paths_view().len(),
        ensures
            p@ == self.paths_view()[i as int],
    {
        &self.paths[i]
    }

    /// All affected paths, in reported order.
    pub fn affected_paths(&self) -> (ps: &Vec<String>)
        ensures
            ps.deep_view() == self.paths_view(),
    {
        &self.paths
    }
}

} // verus!
