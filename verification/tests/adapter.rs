use std::cell::Cell;
use std::sync::atomic::{AtomicUsize, Ordering};
use std::sync::{Arc, Mutex, MutexGuard};

use typed_fuse::{
    Caller, Cx, DirSink, Errno, FileKind, NodeAttr, NodeId, Opened, PathDirIdentity, PathDirSink,
    PathEntry, PathFilesystem, PathNode, PathNodeFs, PathNodeRef, PathPlusDirSink, PlusDirSink,
    StatFs,
};

fn mutex<T>(value: &Mutex<T>) -> MutexGuard<'_, T> {
    value
        .lock()
        .unwrap_or_else(|poisoned| poisoned.into_inner())
}

#[derive(Clone, Default)]
struct RecordingFs {
    getattr_paths: Arc<Mutex<Vec<Option<Vec<u8>>>>>,
    getattr_states: Arc<Mutex<Vec<Arc<usize>>>>,
    forgotten_paths: Arc<Mutex<Vec<Option<Vec<u8>>>>>,
    next_state: Arc<AtomicUsize>,
    alternate_dir_identity: bool,
    refuse: bool,
}

impl RecordingFs {
    fn entry(&self) -> Result<PathEntry<usize>, Errno> {
        if self.refuse {
            return Err(Errno::eacces());
        }
        let state = self.next_state.fetch_add(1, Ordering::Relaxed) + 1;
        let attr = NodeAttr {
            size: state as u64,
            ..Default::default()
        };
        Ok(PathEntry::new(attr, Arc::new(state)))
    }

    fn done(&self) -> Result<(), Errno> {
        if self.refuse {
            Err(Errno::eacces())
        } else {
            Ok(())
        }
    }
}

impl PathFilesystem for RecordingFs {
    type NodeState = usize;
    type Handle = ();
    type DirHandle = ();

    fn root_state(&mut self) -> Arc<Self::NodeState> {
        Arc::new(0)
    }

    fn lookup(
        &self,
        _parent: PathNodeRef<'_, Self::NodeState>,
        name: &[u8],
        _caller: &Caller,
    ) -> Result<Option<PathEntry<Self::NodeState>>, Errno> {
        if name == b"absent" {
            return Ok(None);
        }
        self.entry().map(Some)
    }

    fn getattr(
        &self,
        node: PathNodeRef<'_, Self::NodeState>,
        _handle: Option<&Self::Handle>,
        _caller: &Caller,
    ) -> Result<NodeAttr, Errno> {
        mutex(&self.getattr_paths).push(node.path().map(<[u8]>::to_vec));
        mutex(&self.getattr_states).push(node.state_arc());
        Ok(NodeAttr::default())
    }

    fn forget(&self, node: PathNodeRef<'_, Self::NodeState>) {
        mutex(&self.forgotten_paths).push(node.path().map(<[u8]>::to_vec));
    }

    fn mknod(
        &self,
        _parent: PathNodeRef<'_, Self::NodeState>,
        _name: &[u8],
        _mode: u32,
        _rdev: u32,
        _umask: u32,
        _caller: &Caller,
    ) -> Result<PathEntry<Self::NodeState>, Errno> {
        self.entry()
    }

    fn mkdir(
        &self,
        _parent: PathNodeRef<'_, Self::NodeState>,
        _name: &[u8],
        _mode: u32,
        _umask: u32,
        _caller: &Caller,
    ) -> Result<PathEntry<Self::NodeState>, Errno> {
        self.entry()
    }

    fn create(
        &self,
        _parent: PathNodeRef<'_, Self::NodeState>,
        _name: &[u8],
        _mode: u32,
        _umask: u32,
        _flags: i32,
        _caller: &Caller,
    ) -> Result<(PathEntry<Self::NodeState>, Opened<Self::Handle>), Errno> {
        self.entry().map(|entry| (entry, Opened::new(()).keep_cache(true)))
    }

    fn rename(
        &self,
        _parent: PathNodeRef<'_, Self::NodeState>,
        _name: &[u8],
        _newparent: PathNodeRef<'_, Self::NodeState>,
        _newname: &[u8],
        _caller: &Caller,
    ) -> Result<(), Errno> {
        self.done()
    }

    fn link(
        &self,
        _node: PathNodeRef<'_, Self::NodeState>,
        _newparent: PathNodeRef<'_, Self::NodeState>,
        _newname: &[u8],
        _caller: &Caller,
    ) -> Result<NodeAttr, Errno> {
        self.done().map(|_| NodeAttr::default())
    }

    fn unlink(
        &self,
        _parent: PathNodeRef<'_, Self::NodeState>,
        _name: &[u8],
        _caller: &Caller,
    ) -> Result<(), Errno> {
        self.done()
    }

    fn rmdir(
        &self,
        _parent: PathNodeRef<'_, Self::NodeState>,
        _name: &[u8],
        _caller: &Caller,
    ) -> Result<(), Errno> {
        self.done()
    }

    fn open(
        &self,
        _node: PathNodeRef<'_, Self::NodeState>,
        _flags: i32,
        _caller: &Caller,
    ) -> Result<Opened<Self::Handle>, Errno> {
        Ok(Opened::new(()))
    }

    fn opendir(
        &self,
        _node: PathNodeRef<'_, Self::NodeState>,
        _flags: i32,
        _caller: &Caller,
    ) -> Result<Opened<Self::DirHandle>, Errno> {
        Ok(Opened::new(()))
    }

    fn readdir<K: PathDirSink<Self::NodeState>>(
        &self,
        _node: PathNodeRef<'_, Self::NodeState>,
        _handle: &Self::DirHandle,
        _offset: u64,
        sink: K,
        _caller: &Caller,
    ) -> (K, Result<(), Errno>) {
        let mut sink = sink;
        assert!(sink.add(
            b"enumerated",
            FileKind::RegularFile,
            PathDirIdentity::Child(Arc::new(1)),
            1,
        ));
        if self.alternate_dir_identity {
            assert!(sink.add(b"self", FileKind::Directory, PathDirIdentity::Current, 2));
            return (sink, Ok(()));
        }
        (sink, Err(Errno::eio()))
    }

    fn readdirplus<K: PathPlusDirSink<Self::NodeState>>(
        &self,
        _node: PathNodeRef<'_, Self::NodeState>,
        _handle: &Self::DirHandle,
        _offset: u64,
        sink: K,
        _caller: &Caller,
    ) -> (K, Result<(), Errno>) {
        let mut sink = sink;
        let attr = NodeAttr::default();
        sink.add(b"..", attr, PathDirIdentity::Parent, 1);
        for (index, name) in [&b"one"[..], &b"two"[..]].iter().enumerate() {
            let state = Arc::new(10 + index);
            if !sink.add(name, attr, PathDirIdentity::Child(state), index as u64 + 2) {
                break;
            }
        }
        (sink, self.done())
    }

    fn statfs(&self, path: &[u8], _caller: &Caller) -> Result<StatFs, Errno> {
        Ok(StatFs {
            namelen: path.len() as u32,
            ..Default::default()
        })
    }
}

/// What stands between the kernel and the adapter: the node table and its counts.
struct Runtime {
    fs: PathNodeFs<RecordingFs>,
    cx: Cx<PathNode<usize>>,
    caller: Caller,
}

impl Runtime {
    fn new(inner: RecordingFs) -> Runtime {
        let mut fs = PathNodeFs::new(inner);
        let cx = Cx::new(fs.root());
        Runtime {
            fs,
            cx,
            caller: Caller::default(),
        }
    }

    fn lookup(&mut self, parent: NodeId, name: &[u8]) -> NodeId {
        assert!(self.fs.resolves(parent));
        let found = self.fs.lookup(&mut self.cx, parent, name, &self.caller);
        let id = found.unwrap().unwrap();
        self.entry(id).unwrap();
        id
    }

    fn entry(&mut self, id: NodeId) -> Result<NodeAttr, Errno> {
        let node = self.cx.get(id).ok_or(Errno::enoent())?;
        let attr = self.fs.entry_attr(node, &self.caller)?;
        self.cx.add_lookup(id);
        Ok(attr)
    }

    fn getattr(&self, id: NodeId) {
        let node = self.cx.get(id).unwrap();
        self.fs.getattr(node, None, &self.caller).unwrap();
    }

    fn getattr_open(&self, id: NodeId, open: &Opened<()>) {
        let node = self.cx.get(id).unwrap();
        self.fs
            .getattr(node, Some(&open.handle), &self.caller)
            .unwrap();
    }

    fn open(&mut self, id: NodeId) -> Opened<()> {
        let node = self.cx.get(id).unwrap();
        let open = self.fs.open(node, 0, &self.caller).unwrap();
        self.cx.add_open(id);
        open
    }

    fn forget(&mut self, id: NodeId, count: u64) {
        if let Some(node) = self.cx.forget_notice(id, count) {
            self.fs.forget(node);
        }
        self.cx.forget(id, count);
    }

    fn rename(&mut self, name: &[u8], newname: &[u8]) {
        let root = NodeId::root();
        self.fs
            .rename(&mut self.cx, root, name, root, newname, 0, &self.caller)
            .unwrap();
    }

    fn link(&mut self, id: NodeId, newname: &[u8]) {
        let linked = self
            .fs
            .link(&mut self.cx, id, NodeId::root(), newname, &self.caller)
            .unwrap();
        assert_eq!(linked, id);
        self.entry(id).unwrap();
    }

    fn unlink(&mut self, name: &[u8]) {
        self.fs
            .unlink(&mut self.cx, NodeId::root(), name, &self.caller)
            .unwrap();
    }

    fn readdir<O: DirSink>(&mut self, sink: O) -> (O, Result<(), Errno>) {
        let root = NodeId::root();
        let payload = self.cx.get(root).unwrap().clone();
        self.fs
            .readdir(&mut self.cx, &payload, root, root, &(), 0, sink, &self.caller)
    }

    fn readdirplus<O: PlusDirSink>(&mut self, sink: O) -> (O, Result<(), Errno>) {
        let root = NodeId::root();
        let payload = self.cx.get(root).unwrap().clone();
        self.fs
            .readdirplus(&mut self.cx, &payload, root, root, &(), 0, sink, &self.caller)
    }
}

#[test]
fn path_fs_moving_directory_updates_descendant_paths_without_rewriting_children() {
    let recording = RecordingFs::default();
    let paths = Arc::clone(&recording.getattr_paths);
    let mut runtime = Runtime::new(recording);
    let directory = runtime.lookup(NodeId::root(), b"old");
    let child = runtime.lookup(directory, b"child");

    runtime.rename(b"old", b"new");
    runtime.getattr(child);

    assert_eq!(
        mutex(&paths).last().unwrap().as_deref(),
        Some(&b"/new/child"[..])
    );
}

#[test]
fn forget_reports_the_current_path_for_each_zero_lookup_transition() {
    let recording = RecordingFs::default();
    let forgotten = Arc::clone(&recording.forgotten_paths);
    let mut runtime = Runtime::new(recording);
    let node = runtime.lookup(NodeId::root(), b"old");

    runtime.rename(b"old", b"new");
    runtime.forget(node, 1);
    runtime.forget(node, 1);

    assert_eq!(mutex(&forgotten).as_slice(), [Some(b"/new".to_vec())]);

    assert_eq!(runtime.lookup(NodeId::root(), b"new"), node);
    runtime.forget(node, 1);
    assert_eq!(
        mutex(&forgotten).as_slice(),
        [Some(b"/new".to_vec()), Some(b"/new".to_vec())]
    );
}

#[test]
fn forget_reports_none_after_the_last_name_is_unlinked() {
    let recording = RecordingFs::default();
    let forgotten = Arc::clone(&recording.forgotten_paths);
    let mut runtime = Runtime::new(recording);
    let node = runtime.lookup(NodeId::root(), b"gone");

    runtime.unlink(b"gone");
    runtime.forget(node, 1);

    assert_eq!(mutex(&forgotten).as_slice(), [None]);
    assert!(!runtime.cx.contains(node));
}

#[test]
fn path_fs_overwritten_open_destination_continues_without_a_path() {
    let recording = RecordingFs::default();
    let paths = Arc::clone(&recording.getattr_paths);
    let mut runtime = Runtime::new(recording);
    let source = runtime.lookup(NodeId::root(), b"source");
    let destination = runtime.lookup(NodeId::root(), b"destination");
    let open = runtime.open(destination);

    runtime.rename(b"source", b"destination");
    runtime.getattr_open(destination, &open);

    assert_eq!(mutex(&paths).last().unwrap(), &None);
    assert_eq!(runtime.lookup(NodeId::root(), b"destination"), source);
}

#[test]
fn path_fs_hard_link_alias_survives_unlink_of_original_name() {
    let recording = RecordingFs::default();
    let paths = Arc::clone(&recording.getattr_paths);
    let mut runtime = Runtime::new(recording);
    let original = runtime.lookup(NodeId::root(), b"original");
    runtime.link(original, b"alias");
    runtime.unlink(b"original");
    runtime.getattr(original);
    assert_eq!(mutex(&paths).last().unwrap().as_deref(), Some(&b"/alias"[..]));
}

#[test]
fn typed_node_state_is_retained_across_aliases_and_unlink() {
    let recording = RecordingFs::default();
    let states = Arc::clone(&recording.getattr_states);
    let mut runtime = Runtime::new(recording);

    runtime.getattr(NodeId::root());
    assert_eq!(**mutex(&states).last().unwrap(), 0);

    let node = runtime.lookup(NodeId::root(), b"file");
    runtime.getattr(node);
    let original = mutex(&states).last().unwrap().clone();
    assert_eq!(*original, 1);

    runtime.link(node, b"alias");
    runtime.rename(b"alias", b"renamed");
    runtime.getattr(node);
    assert!(Arc::ptr_eq(&original, mutex(&states).last().unwrap()));

    let open = runtime.open(node);
    runtime.unlink(b"file");
    runtime.unlink(b"renamed");
    runtime.getattr_open(node, &open);
    assert!(Arc::ptr_eq(&original, mutex(&states).last().unwrap()));
}

struct AcceptingSink;
impl DirSink for AcceptingSink {
    fn add(&mut self, _name: &[u8], _id: NodeId, _kind: FileKind, _next_offset: u64) -> bool {
        true
    }
}

#[test]
fn path_fs_failed_readdir_rolls_back_new_namespace_entries() {
    let mut runtime = Runtime::new(RecordingFs::default());
    let (_, result) = runtime.readdir(AcceptingSink);
    assert_eq!(result, Err(Errno::eio()));

    // A stale dentry would point at the node that was retired during
    // rollback, causing entry construction to fail with ENOENT.
    assert!(!runtime.fs.knows(NodeId::root(), b"enumerated"));
    let id = runtime.lookup(NodeId::root(), b"enumerated");
    assert!(runtime.cx.contains(id));
}

#[test]
fn current_directory_identity_accepts_a_nonstandard_name() {
    let mut runtime = Runtime::new(RecordingFs {
        alternate_dir_identity: true,
        ..Default::default()
    });
    let (_, result) = runtime.readdir(AcceptingSink);
    assert_eq!(result, Ok(()));
    assert!(runtime.fs.knows(NodeId::root(), b"enumerated"));
    let id = runtime.lookup(NodeId::root(), b"enumerated");
    assert!(runtime.cx.contains(id));
}

#[test]
fn repeated_lookup_keeps_the_node_and_its_first_state() {
    let recording = RecordingFs::default();
    let states = Arc::clone(&recording.getattr_states);
    let mut runtime = Runtime::new(recording);
    let ids: Vec<NodeId> = (0..12)
        .map(|_| runtime.lookup(NodeId::root(), b"same"))
        .collect();
    assert!(ids.iter().all(|id| *id == ids[0]));
    runtime.getattr(ids[0]);
    assert_eq!(**mutex(&states).last().unwrap(), 1);
}

#[test]
fn entry_attributes_are_saved_for_the_immediate_reply() {
    let recording = RecordingFs::default();
    let paths = Arc::clone(&recording.getattr_paths);
    let mut runtime = Runtime::new(recording);
    let caller = Caller::default();
    let id = runtime
        .fs
        .lookup(&mut runtime.cx, NodeId::root(), b"f", &caller)
        .unwrap()
        .unwrap();
    assert!(runtime.fs.has_entry_attr(runtime.cx.get(id).unwrap()));
    assert_eq!(runtime.entry(id).unwrap().size, 1);
    assert!(!runtime.fs.has_entry_attr(runtime.cx.get(id).unwrap()));
    assert!(mutex(&paths).is_empty());
    // They serve one reply; the next one asks the filesystem.
    assert_eq!(runtime.entry(id).unwrap().size, 0);
    assert_eq!(mutex(&paths).len(), 1);
}

#[test]
fn entry_attributes_of_another_node_are_not_used() {
    let recording = RecordingFs::default();
    let paths = Arc::clone(&recording.getattr_paths);
    let mut runtime = Runtime::new(recording);
    let first = runtime.lookup(NodeId::root(), b"first");
    let caller = Caller::default();
    runtime
        .fs
        .lookup(&mut runtime.cx, NodeId::root(), b"second", &caller)
        .unwrap();
    assert!(!runtime.fs.has_entry_attr(runtime.cx.get(first).unwrap()));
    assert_eq!(runtime.entry(first).unwrap().size, 0);
    assert_eq!(mutex(&paths).last().unwrap().as_deref(), Some(&b"/first"[..]));
}

#[test]
fn negative_lookup_discovers_nothing() {
    let mut runtime = Runtime::new(RecordingFs::default());
    let caller = Caller::default();
    let found = runtime
        .fs
        .lookup(&mut runtime.cx, NodeId::root(), b"absent", &caller);
    assert_eq!(found, Ok(None));
    assert!(!runtime.fs.knows(NodeId::root(), b"absent"));
}

#[test]
fn refused_requests_change_nothing() {
    let mut runtime = Runtime::new(RecordingFs::default());
    let node = runtime.lookup(NodeId::root(), b"a");
    let fs = runtime.fs.into_inner();
    // The same names, behind a filesystem that now refuses everything.
    let mut runtime = Runtime::new(RecordingFs { refuse: true, ..fs });
    let caller = Caller::default();
    let root = NodeId::root();
    let refused = Errno::eacces();
    assert_eq!(
        runtime.fs.lookup(&mut runtime.cx, root, b"a", &caller),
        Err(refused)
    );
    assert_eq!(
        runtime.fs.mknod(&mut runtime.cx, root, b"a", 0, 0, 0, &caller),
        Err(refused)
    );
    assert_eq!(
        runtime.fs.mkdir(&mut runtime.cx, root, b"a", 0, 0, &caller),
        Err(refused)
    );
    assert!(runtime
        .fs
        .create(&mut runtime.cx, root, b"a", 0, 0, 0, &caller)
        .is_err());
    assert_eq!(
        runtime.fs.unlink(&mut runtime.cx, root, b"a", &caller),
        Err(refused)
    );
    assert_eq!(
        runtime.fs.rmdir(&mut runtime.cx, root, b"a", &caller),
        Err(refused)
    );
    assert_eq!(
        runtime.fs.rename(&mut runtime.cx, root, b"a", root, b"b", 0, &caller),
        Err(refused)
    );
    assert_eq!(
        runtime.fs.link(&mut runtime.cx, root, root, b"b", &caller),
        Err(refused)
    );
    assert!(!runtime.fs.knows(root, b"a"));
    assert!(!runtime.cx.contains(node));
}

#[test]
fn requests_on_missing_nodes_are_answered_enoent() {
    let mut runtime = Runtime::new(RecordingFs::default());
    let caller = Caller::default();
    let root = NodeId::root();
    let gone = runtime.lookup(root, b"gone");
    runtime.unlink(b"gone");
    // Still looked up, but without a path.
    let missing = Errno::enoent();
    assert_eq!(
        runtime.fs.lookup(&mut runtime.cx, gone, b"x", &caller),
        Err(missing)
    );
    let node = runtime.cx.get(gone).unwrap();
    assert_eq!(runtime.fs.readlink(node, &caller), Err(missing));
    assert!(runtime.fs.open(node, 0, &caller).is_err());
    assert!(runtime.fs.opendir(node, 0, &caller).is_err());
    assert_eq!(runtime.fs.access(node, 0, &caller), Err(missing));
    assert_eq!(runtime.fs.getxattr(node, b"n", 0, &caller), Err(missing));
    assert_eq!(runtime.fs.listxattr(node, 0, &caller), Err(missing));
    assert_eq!(runtime.fs.setxattr(node, b"n", b"v", 0, &caller), Err(missing));
    assert_eq!(runtime.fs.removexattr(node, b"n", &caller), Err(missing));
    // Open handles do not need a path.
    assert_eq!(runtime.fs.flush(node, &(), &caller), Ok(()));
    assert_eq!(runtime.fs.fsync(node, &(), false, &caller), Ok(()));
    assert_eq!(runtime.fs.release(node, (), &caller), Ok(()));
    // Gone for good.
    runtime.forget(gone, 1);
    assert_eq!(
        runtime.fs.rename(&mut runtime.cx, gone, b"x", root, b"y", 0, &caller),
        Err(missing)
    );
    assert_eq!(
        runtime.fs.link(&mut runtime.cx, gone, root, b"y", &caller),
        Err(missing)
    );
}

#[test]
fn unsupported_callbacks_are_answered_enosys() {
    let mut runtime = Runtime::new(RecordingFs::default());
    let caller = Caller::default();
    let id = runtime.lookup(NodeId::root(), b"f");
    let node = runtime.cx.get(id).unwrap();
    let unsupported = Errno::enosys();
    assert_eq!(runtime.fs.readlink(node, &caller), Err(unsupported));
    assert_eq!(runtime.fs.write(node, &(), b"d", 0, &caller), Err(unsupported));
    assert!(runtime.fs.read(node, &(), 0, 1, &caller).is_err());
    assert_eq!(runtime.fs.lseek(node, &(), 0, 0, &caller), Err(unsupported));
    assert_eq!(runtime.fs.fallocate(node, &(), 0, 0, 1, &caller), Err(unsupported));
    assert_eq!(runtime.fs.flock(node, &(), 0, &caller), Err(unsupported));
    assert_eq!(runtime.fs.access(node, 0, &caller), Ok(()));
    assert_eq!(
        runtime
            .fs
            .symlink(&mut runtime.cx, NodeId::root(), b"l", b"t", &caller),
        Err(unsupported)
    );
}

#[test]
fn rename_flags_are_not_supported() {
    let mut runtime = Runtime::new(RecordingFs::default());
    let caller = Caller::default();
    let root = NodeId::root();
    let id = runtime.lookup(root, b"a");
    assert_eq!(
        runtime.fs.rename(&mut runtime.cx, root, b"a", root, b"b", 1, &caller),
        Err(Errno::eopnotsupp())
    );
    assert_eq!(runtime.lookup(root, b"a"), id);
}

#[test]
fn rename_to_another_name_of_the_same_node_changes_nothing() {
    let mut runtime = Runtime::new(RecordingFs::default());
    let id = runtime.lookup(NodeId::root(), b"a");
    runtime.link(id, b"b");
    runtime.rename(b"a", b"b");
    assert!(runtime.fs.knows(NodeId::root(), b"a"));
    assert!(runtime.fs.knows(NodeId::root(), b"b"));
}

#[test]
fn rename_of_an_unknown_name_changes_nothing() {
    let mut runtime = Runtime::new(RecordingFs::default());
    let taken = runtime.lookup(NodeId::root(), b"taken");
    runtime.rename(b"unknown", b"taken");
    assert_eq!(runtime.lookup(NodeId::root(), b"taken"), taken);
}

#[test]
fn moved_node_reports_its_new_parent() {
    let mut runtime = Runtime::new(RecordingFs::default());
    let caller = Caller::default();
    let root = NodeId::root();
    let directory = runtime.lookup(root, b"dir");
    let file = runtime.lookup(root, b"file");
    assert_eq!(runtime.cx.parent(file), Some(root));
    runtime
        .fs
        .rename(&mut runtime.cx, root, b"file", directory, b"file", 0, &caller)
        .unwrap();
    assert_eq!(runtime.cx.parent(file), Some(directory));
}

#[test]
fn first_name_in_order_gives_the_path() {
    let recording = RecordingFs::default();
    let paths = Arc::clone(&recording.getattr_paths);
    let mut runtime = Runtime::new(recording);
    let id = runtime.lookup(NodeId::root(), b"m");
    runtime.link(id, b"z");
    runtime.getattr(id);
    assert_eq!(mutex(&paths).last().unwrap().as_deref(), Some(&b"/m"[..]));
    runtime.link(id, b"a");
    runtime.getattr(id);
    assert_eq!(mutex(&paths).last().unwrap().as_deref(), Some(&b"/a"[..]));
    // A prefix comes before its extensions.
    runtime.link(id, b"a0");
    runtime.unlink(b"a");
    runtime.getattr(id);
    assert_eq!(mutex(&paths).last().unwrap().as_deref(), Some(&b"/a0"[..]));
}

#[test]
fn directory_below_itself_has_no_way_up() {
    let mut runtime = Runtime::new(RecordingFs::default());
    let caller = Caller::default();
    let root = NodeId::root();
    let outer = runtime.lookup(root, b"outer");
    let inner = runtime.lookup(outer, b"inner");
    let gone = runtime.lookup(root, b"gone");
    runtime.unlink(b"gone");
    assert!(runtime.fs.resolves(inner));
    assert!(runtime.fs.resolves_both(&runtime.cx, root, inner));
    runtime
        .fs
        .rename(&mut runtime.cx, root, b"outer", inner, b"outer", 0, &caller)
        .unwrap();
    assert!(!runtime.fs.resolves(outer));
    assert!(!runtime.fs.resolves(inner));
    assert!(runtime.fs.resolves(root));
    let node = runtime.cx.get(inner).unwrap();
    assert!(!runtime.fs.node_resolves(node));
    assert!(!runtime.fs.resolves_both(&runtime.cx, root, inner));
    assert!(!runtime.fs.resolves_both(&runtime.cx, inner, root));
    // A first node without a path is refused before the second one's way up matters.
    assert!(runtime.fs.resolves_both(&runtime.cx, gone, inner));
    let refused = runtime
        .fs
        .rename(&mut runtime.cx, gone, b"a", inner, b"b", 0, &caller);
    assert_eq!(refused, Err(Errno::enoent()));
}

#[test]
fn creation_discovers_and_opens() {
    let mut runtime = Runtime::new(RecordingFs::default());
    let caller = Caller::default();
    let root = NodeId::root();
    let (id, opened) = runtime
        .fs
        .create(&mut runtime.cx, root, b"new", 0o644, 0, 0, &caller)
        .unwrap();
    assert!(opened.hints.keep_cache);
    assert_eq!(runtime.entry(id).unwrap().size, 1);
    assert_eq!(runtime.lookup(root, b"new"), id);
    let directory = runtime
        .fs
        .mkdir(&mut runtime.cx, root, b"dir", 0o755, 0, &caller)
        .unwrap();
    assert_ne!(directory, id);
    runtime
        .fs
        .rmdir(&mut runtime.cx, root, b"dir", &caller)
        .unwrap();
    assert!(!runtime.cx.contains(directory));
}

#[test]
fn statfs_asks_about_the_root_path() {
    let runtime = Runtime::new(RecordingFs::default());
    let stat = runtime.fs.statfs(&Caller::default()).unwrap();
    assert_eq!(stat.namelen, 1);
}

#[derive(Default)]
struct PlusSink {
    seen: Vec<(Vec<u8>, u64)>,
    room: Cell<usize>,
}

impl PlusDirSink for PlusSink {
    fn add(&mut self, name: &[u8], id: NodeId, _attr: NodeAttr, _next_offset: u64) -> bool {
        if self.room.get() == 0 {
            return false;
        }
        self.room.set(self.room.get() - 1);
        self.seen.push((name.to_vec(), id.ino()));
        true
    }
}

#[test]
fn listing_discovers_only_what_the_buffer_takes() {
    let mut runtime = Runtime::new(RecordingFs::default());
    let sink = PlusSink {
        room: Cell::new(2),
        ..Default::default()
    };
    let (sink, result) = runtime.readdirplus(sink);
    assert_eq!(result, Ok(()));
    let root = NodeId::root();
    assert_eq!(sink.seen[0], (b"..".to_vec(), 1));
    assert!(runtime.fs.knows(root, b"one"));
    assert!(!runtime.fs.knows(root, b"two"));
    let one = runtime.lookup(root, b"one");
    assert_eq!(sink.seen[1], (b"one".to_vec(), one.ino()));
    assert_eq!(sink.seen.len(), 2);
}

#[test]
fn failed_plus_listing_is_taken_back() {
    let mut runtime = Runtime::new(RecordingFs {
        refuse: true,
        ..Default::default()
    });
    let sink = PlusSink {
        room: Cell::new(9),
        ..Default::default()
    };
    let (sink, result) = runtime.readdirplus(sink);
    assert_eq!(result, Err(Errno::eacces()));
    assert_eq!(sink.seen.len(), 3);
    assert!(!runtime.fs.knows(NodeId::root(), b"one"));
    assert!(!runtime.fs.knows(NodeId::root(), b"two"));
}

#[test]
fn names_known_before_a_failed_listing_stay() {
    let mut runtime = Runtime::new(RecordingFs::default());
    let id = runtime.lookup(NodeId::root(), b"enumerated");
    let (_, result) = runtime.readdir(AcceptingSink);
    assert_eq!(result, Err(Errno::eio()));
    assert_eq!(runtime.lookup(NodeId::root(), b"enumerated"), id);
}

#[test]
fn absolute_names_replace_the_path() {
    let recording = RecordingFs::default();
    let paths = Arc::clone(&recording.getattr_paths);
    let mut runtime = Runtime::new(recording);
    let directory = runtime.lookup(NodeId::root(), b"dir");
    let odd = runtime.lookup(directory, b"/odd");
    runtime.getattr(odd);
    assert_eq!(mutex(&paths).last().unwrap().as_deref(), Some(&b"/odd"[..]));
}
