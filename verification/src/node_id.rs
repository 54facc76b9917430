//! Node identity.

use vstd::prelude::*;

verus! {

/// The inode number of the filesystem root (`FUSE_ROOT_ID`).
pub const ROOT_INO: u64 = 1;

/// An opaque handle to a node tracked by the runtime. Numerically equal to the FUSE
/// inode number, but filesystems should treat it as opaque and store these (rather
/// than raw `u64`s) in their own directory structures.
///
/// Contracts speak of a handle by its view, the inode number.
#[derive(Clone, Copy, PartialEq, Eq, Structural, PartialOrd, Ord, Hash, Debug)]
pub struct NodeId(u64);

impl View for NodeId {
    type V = u64;

    closed spec fn view(&self) -> u64 {
        self.0
    }
}

impl NodeId {
    /// The filesystem root.
    pub fn root() -> (id: NodeId)
        ensures
            id@ == ROOT_INO,
    {
        NodeId(ROOT_INO)
    }

    /// The underlying inode number.
    pub fn ino(self) -> (ino: u64)
        ensures
            ino == self@,
    {
        self.0
    }

    pub(crate) fn from_ino(ino: u64) -> (id: NodeId)
        ensures
            id@ == ino,
    {
        NodeId(ino)
    }
}

/// Two handles with one inode number are the same handle.
pub broadcast proof fn node_id_is_its_ino(a: NodeId, b: NodeId)
    requires
        #[trigger] a@ == #[trigger] b@,
    ensures
        a == b,
{
}

} // verus!
