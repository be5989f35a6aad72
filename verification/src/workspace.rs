//! The directory an agent works in, and the rule that keeps it inside.
use vstd::prelude::*;
use vstd::string::*;

use crate::path::{
    has_parent_component, is_absolute, join, parent_piece_at, path_has_parent_component,
    path_is_absolute, path_join,
};
use crate::text::concat2;

verus! {

#[derive(Clone, Copy, Debug, PartialEq, Eq, Structural)]
pub enum WorkspaceErrorKind {
    Escape,
    Io,
}

/// Why a workspace read failed: the path would leave the workspace, or the
/// file system reported an error (held as its text).
#[derive(Debug)]
pub enum WorkspaceError {
    Escape(String),
    Io(String),
}

impl View for WorkspaceError {
    type V = (WorkspaceErrorKind, Seq<char>);

    open spec fn view(&self) -> (WorkspaceErrorKind, Seq<char>) {
        match self {
            WorkspaceError::Escape(p) => (WorkspaceErrorKind::Escape, p@),
            WorkspaceError::Io(e) => (WorkspaceErrorKind::Io, e@),
        }
    }
}

/// The text the error displays.
pub open spec fn workspace_error_text(e: (WorkspaceErrorKind, Seq<char>)) -> Seq<char> {
    match e.0 {
        WorkspaceErrorKind::Escape => "path escapes workspace: "@ + e.1,
        WorkspaceErrorKind::Io => "io: "@ + e.1,
    }
}

impl WorkspaceError {
    pub fn message(&self) -> (r: String)
        ensures
            r@ == workspace_error_text(self@),
    {
        match self {
            WorkspaceError::Escape(p) => concat2("path escapes workspace: ", p.as_str()),
            WorkspaceError::Io(e) => concat2("io: ", e.as_str()),
        }
    }
}

/// A relative path leaves its base when it is absolute or has a `..`
/// component.
pub open spec fn escapes(relative: Seq<char>) -> bool {
    is_absolute(relative) || has_parent_component(relative)
}

/// `path` is `root` itself or lies below it, component by component:
/// `root` is a prefix of `path` that ends at a `/` of `path`.
pub open spec fn within(root: Seq<char>, path: Seq<char>) -> bool {
    ||| path == root
    ||| {
        &&& root.len() < path.len()
        &&& path.subrange(0, root.len() as int) == root
        &&& ((root.len() > 0 && root.last() == '/') || path[root.len() as int] == '/')
    }
}

/// Whether `path` is `root` or lies below it.
pub fn path_within(root: &str, path: &str) -> (r: bool)
    ensures
        r == within(root@, path@),
{
    let n = root.unicode_len();
    let m = path.unicode_len();
    if m < n {
        return false;
    }
    let mut i: usize = 0;
    while i < n
        invariant
            n == root@.len(),
            m == path@.len(),
            n <= m,
            i <= n,
            forall|j: int| 0 <= j < i ==> root@[j] == path@[j],
        decreases n - i,
    {
        if root.get_char(i) != path.get_char(i) {
            assert(path@.subrange(0, n as int)[i as int] != root@[i as int]);
            return false;
        }
        i = i + 1;
    }
    assert(path@.subrange(0, n as int) =~= root@);
    if m == n {
        assert(path@ =~= root@);
        return true;
    }
    if n > 0 && root.get_char(n - 1) == '/' {
        return true;
    }
    path.get_char(n) == '/'
}

/// Sandboxed view of a single directory.
#[derive(Debug)]
pub struct Workspace {
    root: String,
}

impl Clone for Workspace {
    fn clone(&self) -> (r: Self)
        ensures
            r == *self,
    {
        Workspace { root: self.root.clone() }
    }
}

impl Workspace {
    /// The directory of the workspace.
    pub closed spec fn root_path(&self) -> Seq<char> {
        self.root@
    }

    pub fn new(root: &str) -> (r: Workspace)
        ensures
            r.root_path() == root@,
    {
        Workspace { root: String::from_str(root) }
    }

    pub fn root(&self) -> (r: &str)
        ensures
            r@ == self.root_path(),
    {
        self.root.as_str()
    }

    /// The path of `relative` inside the workspace; an escape error, naming
    /// `relative`, when it is absolute or has a `..` component.
    pub fn resolve(&self, relative: &str) -> (r: Result<String, WorkspaceError>)
        ensures
            r is Err <==> escapes(relative@),
            r matches Err(e) ==> e@ == (WorkspaceErrorKind::Escape, relative@),
            r matches Ok(p) ==> p@ == join(self.root_path(), relative@),
    {
        if path_is_absolute(relative) {
            return Err(WorkspaceError::Escape(String::from_str(relative)));
        }
        if path_has_parent_component(relative) {
            return Err(WorkspaceError::Escape(String::from_str(relative)));
        }
        Ok(path_join(self.root.as_str(), relative))
    }

    /// Where a read of `relative` really leads, once symbolic links are
    /// followed: given the canonical form of the workspace's root and of the
    /// path that `resolve` gave, the read may go on only when the file lies
    /// within the root; otherwise it is an escape error naming `relative`.
    pub fn confine(relative: &str, canonical_root: &str, canonical_target: &str) -> (r: Result<
        (),
        WorkspaceError,
    >)
        ensures
            r is Ok <==> within(canonical_root@, canonical_target@),
            r matches Err(e) ==> e@ == (WorkspaceErrorKind::Escape, relative@),
    {
        if path_within(canonical_root, canonical_target) {
            Ok(())
        } else {
            Err(WorkspaceError::Escape(String::from_str(relative)))
        }
    }
}

/// Law: a path that `resolve` accepts lies under the root: it starts with the
/// root, and every `..` component in it lies within the root's own text.
pub proof fn lemma_resolved_stays_inside(root: Seq<char>, relative: Seq<char>)
    requires
        !escapes(relative),
    ensures
        join(root, relative).len() >= root.len(),
        join(root, relative).subrange(0, root.len() as int) == root,
        forall|i: int| #[trigger] parent_piece_at(join(root, relative), i) ==> i + 2 <= root.len(),
{
    let j = join(root, relative);
    let rl = root.len() as int;
    if rl == 0 {
        assert(j == relative);
        assert(j.subrange(0, 0) =~= root);
        assert forall|i: int| #[trigger] parent_piece_at(j, i) implies i + 2 <= rl by {
            assert(parent_piece_at(relative, i));
        }
    } else {
        let off: int = if root.last() == '/' { rl } else { rl + 1 };
        assert(forall|k: int| 0 <= k < rl ==> j[k] == root[k]);
        assert(forall|k: int| off <= k < j.len() ==> j[k] == relative[k - off]);
        assert(j.len() == off + relative.len());
        assert(j[off - 1] == '/');
        assert(j.subrange(0, rl) =~= root);
        assert forall|i: int| #[trigger] parent_piece_at(j, i) implies i + 2 <= rl by {
            if i + 2 > rl {
                if i >= off {
                    let m = i - off;
                    if m > 0 {
                        assert(j[i - 1] == relative[m - 1]);
                    }
                    if m + 2 < relative.len() {
                        assert(j[i + 2] == relative[m + 2]);
                    }
                    assert(parent_piece_at(relative, m));
                } else {
                    assert(j[off - 1] == '/');
                }
            }
        }
    }
}

} // verus!
