//! Typed FUSE filesystems: node and path interfaces, the adapter between them, and the
//! conversions of the low-level bridge, all with machine-checked contracts.
//!
//! A filesystem implements either [`NodeFs`], in terms of nodes that the runtime
//! identifies, or [`PathFilesystem`], in terms of paths. [`PathNodeFs`] turns the latter
//! into nodes: it keeps the names under which each node is known in a namespace and works
//! out the current path of a node from them.
//!
//! Names, paths and link targets are byte strings, not text. Points in time are
//! [`Timestamp`]s. Records of the low-level C interface are structures with the same
//! fields.

pub mod attr;
pub mod bytes;
pub mod conv;
pub mod cx;
pub mod darwin;
pub mod dentry;
pub mod discovery;
pub mod errno;
pub mod ffi;
pub mod file_lock;
pub mod laws;
pub mod mount;
pub mod namespace;
pub mod node_fs;
pub mod node_id;
pub mod passthrough;
pub mod path_fs;
pub mod path_node_fs;
pub mod replay;
pub mod text;
pub mod time;
pub mod tree;

pub use attr::{FileKind, NodeAttr, SetAttr, StatFs, TimeOrNow};
pub use cx::Cx;
pub use errno::Errno;
pub use mount::{MountConfig, MountOption, SessionConfig, ThreadPoolConfig, ThreadingMode};
pub use node_fs::{
    Caller, ConnInfo, ConnectionCapability, DirSink, FileLock, LockKind, NodeFs, OpenHints, Opened,
    PlusDirSink, XattrReply,
};
pub use node_id::NodeId;
pub use path_fs::{
    DirBuffer, DirEntry, PathDirIdentity, PathDirSink, PathEntry, PathFilesystem, PathNodeRef,
    PathPlusDirSink,
};
pub use path_node_fs::PathNodeFs;
pub use replay::{replay, replay_into, Emitter};
pub use time::Timestamp;
pub use tree::PathNode;
