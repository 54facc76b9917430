use std::sync::Arc;

use typed_fuse::{
    replay, replay_into, DirBuffer, Emitter, FileKind, NodeAttr, PathDirIdentity, PathDirSink,
    PathEntry, PathNodeRef, PathPlusDirSink,
};

#[test]
fn replay_emits_index_plus_one_cookies_from_offset() {
    let mut emitted: Vec<(usize, u64)> = Vec::new();
    replay(0, 3, |index, next_offset| {
        emitted.push((index, next_offset));
        true
    });
    assert_eq!(emitted, vec![(0, 1), (1, 2), (2, 3)]);

    emitted.clear();
    replay(2, 3, |index, next_offset| {
        emitted.push((index, next_offset));
        true
    });
    assert_eq!(emitted, vec![(2, 3)]);
}

#[test]
fn replay_stops_when_sink_is_full() {
    let mut emitted = Vec::new();
    replay(0, 5, |index, next_offset| {
        emitted.push((index, next_offset));
        index < 1 // full after the second entry
    });
    assert_eq!(emitted, vec![(0, 1), (1, 2)]);
}

#[test]
fn replay_tolerates_out_of_range_and_huge_offsets() {
    let mut emitted = Vec::new();
    replay(10, 3, |index, next_offset| {
        emitted.push((index, next_offset));
        true
    });
    replay(u64::MAX, 3, |index, next_offset| {
        emitted.push((index, next_offset));
        true
    });
    assert!(emitted.is_empty());
}

#[derive(Default)]
struct RecordingDirSink {
    seen: Vec<(Vec<u8>, u64)>,
    stop_after: Option<usize>,
}

impl PathDirSink<()> for RecordingDirSink {
    fn add(
        &mut self,
        name: &[u8],
        _kind: FileKind,
        _identity: PathDirIdentity<()>,
        next_offset: u64,
    ) -> bool {
        self.seen.push((name.to_vec(), next_offset));
        self.stop_after != Some(self.seen.len())
    }
}

#[derive(Default)]
struct RecordingPlusDirSink {
    seen: Vec<(Vec<u8>, u64)>,
    sizes: Vec<u64>,
}

impl PathPlusDirSink<()> for RecordingPlusDirSink {
    fn add(
        &mut self,
        name: &[u8],
        attr: NodeAttr,
        _identity: PathDirIdentity<()>,
        next_offset: u64,
    ) -> bool {
        self.seen.push((name.to_vec(), next_offset));
        self.sizes.push(attr.size);
        true
    }
}

fn sample_dir_buffer() -> DirBuffer<()> {
    let mut buf = DirBuffer::new();
    buf.push_dots(NodeAttr::default(), NodeAttr::default());
    buf.push(
        b"a".to_vec(),
        FileKind::RegularFile,
        NodeAttr::default(),
        Arc::new(()),
    );
    buf.push(
        b"b".to_vec(),
        FileKind::RegularFile,
        NodeAttr::default(),
        Arc::new(()),
    );
    buf
}

#[test]
fn path_fs_dir_buffer_fill_assigns_sequential_resume_offsets() {
    let buf = sample_dir_buffer();
    let mut sink = RecordingDirSink::default();
    buf.fill(0, &mut sink);
    assert_eq!(
        sink.seen,
        vec![
            (b".".to_vec(), 1),
            (b"..".to_vec(), 2),
            (b"a".to_vec(), 3),
            (b"b".to_vec(), 4),
        ]
    );
}

#[test]
fn path_fs_dir_buffer_fill_resumes_from_given_offset() {
    let buf = sample_dir_buffer();
    let mut sink = RecordingDirSink::default();
    // Resume after the entry that returned next_offset = 2 (i.e. "..").
    buf.fill(2, &mut sink);
    assert_eq!(sink.seen, vec![(b"a".to_vec(), 3), (b"b".to_vec(), 4)]);
}

#[test]
fn path_fs_dir_buffer_fill_stops_when_sink_is_full() {
    let buf = sample_dir_buffer();
    let mut sink = RecordingDirSink {
        stop_after: Some(2),
        ..Default::default()
    };
    buf.fill(0, &mut sink);
    assert_eq!(sink.seen, vec![(b".".to_vec(), 1), (b"..".to_vec(), 2)]);
}

#[test]
fn path_fs_dir_buffer_fill_plus_carries_attrs_and_offsets() {
    let buf = sample_dir_buffer();
    let mut sink = RecordingPlusDirSink::default();
    buf.fill_plus(0, &mut sink);
    assert_eq!(sink.seen.len(), 4);
    assert_eq!(sink.seen[3], (b"b".to_vec(), 4));
}

#[test]
fn dir_buffer_fill_plus_hands_over_each_entrys_attributes() {
    let mut buf = DirBuffer::new();
    for size in [3u64, 1, 2] {
        let attr = NodeAttr {
            size,
            ..Default::default()
        };
        buf.push(b"x".to_vec(), FileKind::RegularFile, attr, Arc::new(()));
    }
    let mut sink = RecordingPlusDirSink::default();
    buf.fill_plus(1, &mut sink);
    assert_eq!(sink.sizes, vec![1, 2]);
}

#[test]
fn dir_buffer_offset_behind_the_end_lists_nothing() {
    let buf = sample_dir_buffer();
    let mut sink = RecordingDirSink::default();
    buf.fill(4, &mut sink);
    buf.fill(u64::MAX, &mut sink);
    assert!(sink.seen.is_empty());
}

#[test]
fn dir_buffer_listing_resumes_at_the_last_accepted_cookie() {
    let buf = sample_dir_buffer();
    // The second entry is refused, so the last cookie that counts is that of the first.
    let mut first = RecordingDirSink {
        stop_after: Some(2),
        ..Default::default()
    };
    buf.fill(0, &mut first);
    let cookie = first.seen[0].1;
    let mut second = RecordingDirSink::default();
    buf.fill(cookie, &mut second);
    let mut names: Vec<Vec<u8>> = vec![first.seen[0].0.clone()];
    names.extend(second.seen.iter().map(|entry| entry.0.clone()));
    let all: Vec<Vec<u8>> = buf.iter().map(|entry| entry.name.clone()).collect();
    assert_eq!(names, all);
}

#[test]
fn dir_buffer_shares_states_with_its_copies() {
    let state = Arc::new(7u32);
    let mut buf: DirBuffer<u32> = DirBuffer::default();
    assert!(buf.is_empty());
    buf.push(b"n".to_vec(), FileKind::Symlink, NodeAttr::default(), Arc::clone(&state));
    let copy = buf.clone();
    assert_eq!(copy.len(), 1);
    let entry = copy.iter().next().unwrap();
    assert_eq!(entry.kind, FileKind::Symlink);
    match &entry.identity {
        PathDirIdentity::Child(shared) => assert!(Arc::ptr_eq(shared, &state)),
        _ => panic!("a pushed entry is a child"),
    }
}

#[test]
fn dir_buffer_dots_stand_for_the_directory_and_its_parent() {
    let mut buf: DirBuffer<()> = DirBuffer::new();
    buf.push_dots(NodeAttr::default(), NodeAttr::default());
    let identities: Vec<bool> = buf
        .iter()
        .map(|entry| matches!(entry.identity, PathDirIdentity::Current))
        .collect();
    assert_eq!(identities, vec![true, false]);
    assert!(buf.iter().all(|entry| entry.kind == FileKind::Directory));
}

#[test]
fn path_node_ref_hands_out_path_and_state() {
    let state = Arc::new(5u8);
    let node = PathNodeRef::new(Some(b"/a"), &state);
    assert_eq!(node.path(), Some(&b"/a"[..]));
    assert_eq!(*node.state(), 5);
    assert!(Arc::ptr_eq(&node.state_arc(), &state));
    let unlinked = PathNodeRef::new(None, &state);
    assert_eq!(unlinked.path(), None);
    let entry = PathEntry::new(NodeAttr::default(), Arc::clone(&state));
    assert!(Arc::ptr_eq(&entry.state, &state));
}

/// Takes every entry up to a limit.
struct Numbers {
    seen: Vec<(usize, u64)>,
    room: usize,
}

struct Counting;

impl Emitter<Numbers> for Counting {
    fn emit(&self, target: &mut Numbers, index: usize, next_offset: u64) -> bool {
        if target.room == 0 {
            return false;
        }
        target.room -= 1;
        target.seen.push((index, next_offset));
        true
    }
}

#[test]
fn replay_into_emits_from_the_offset_up_to_the_first_refusal() {
    let mut target = Numbers {
        seen: Vec::new(),
        room: 2,
    };
    replay_into(1, 5, &Counting, &mut target);
    assert_eq!(target.seen, vec![(1, 2), (2, 3)]);
    assert_eq!(target.room, 0);
    target.room = 9;
    replay_into(5, 5, &Counting, &mut target);
    replay_into(u64::MAX, 5, &Counting, &mut target);
    assert_eq!(target.seen, vec![(1, 2), (2, 3)]);
}

#[test]
fn replay_resumed_at_the_last_cookie_covers_every_entry_once() {
    let mut first: Vec<(usize, u64)> = Vec::new();
    replay(0, 6, |index, next_offset| {
        if first.len() == 2 {
            return false;
        }
        first.push((index, next_offset));
        true
    });
    assert_eq!(first, vec![(0, 1), (1, 2)]);
    let cookie = first[first.len() - 1].1;
    replay(cookie, 6, |index, next_offset| {
        first.push((index, next_offset));
        true
    });
    assert_eq!(first, vec![(0, 1), (1, 2), (2, 3), (3, 4), (4, 5), (5, 6)]);
}

#[test]
fn plus_listing_resumed_at_a_cookie_goes_on_behind_it() {
    let buf = sample_dir_buffer();
    let mut sink = RecordingPlusDirSink::default();
    buf.fill_plus(2, &mut sink);
    assert_eq!(sink.seen, vec![(b"a".to_vec(), 3), (b"b".to_vec(), 4)]);
    buf.fill_plus(4, &mut sink);
    assert_eq!(sink.seen.len(), 2);
}
