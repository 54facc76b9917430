//! A backing tree's files, names and attributes, as they are passed on.

use vstd::prelude::*;

use crate::attr::{FileKind, NodeAttr};
use crate::errno::Errno;
use crate::passthrough::{Metadata, NodeCall};
use crate::time::Timestamp;

verus! {

/// A backing file that is of one type is reported as of that kind, and one that is of none
/// as a regular file.
pub proof fn law_types_are_reported_as_they_are(metadata: &Metadata, kind: FileKind)
    requires
        call_ensures(crate::passthrough::file_type_from_metadata, (metadata,), kind),
    ensures
        kind is Directory <==> metadata.file_type.is_dir,
        !metadata.file_type.is_dir ==> (kind is Symlink <==> metadata.file_type.is_symlink),
        !metadata.file_type.is_dir && !metadata.file_type.is_symlink ==> {
            let ft = metadata.file_type;
            &&& kind is BlockDevice <==> ft.is_block_device
            &&& !ft.is_block_device ==> (kind is CharDevice <==> ft.is_char_device)
            &&& !ft.is_block_device && !ft.is_char_device ==> (kind is NamedPipe <==> ft.is_fifo)
            &&& !ft.is_block_device && !ft.is_char_device && !ft.is_fifo ==> (kind is Socket
                <==> ft.is_socket)
            &&& kind is RegularFile <==> !ft.is_block_device && !ft.is_char_device && !ft.is_fifo
                && !ft.is_socket
        },
{
}

/// A backing file's attributes are its own, each in its place, but for the size, which is
/// the one that is asked for, and the file type, which is in the kind alone.
pub proof fn law_backing_attributes_are_passed_on(
    metadata: &Metadata,
    size: u64,
    attr: NodeAttr,
    kind: FileKind,
    times: (Timestamp, Timestamp, Timestamp),
    counts: (i128, i128),
)
    requires
        call_ensures(crate::passthrough::file_attr_from_metadata, (metadata, size), attr),
        call_ensures(crate::passthrough::file_type_from_metadata, (metadata,), kind),
        call_ensures(
            crate::time::system_time_from_secs,
            (metadata.atime, metadata.atime_nsec),
            times.0,
        ),
        call_ensures(
            crate::time::system_time_from_secs,
            (metadata.mtime, metadata.mtime_nsec),
            times.1,
        ),
        call_ensures(
            crate::time::system_time_from_secs,
            (metadata.ctime, metadata.ctime_nsec),
            times.2,
        ),
        call_ensures(Timestamp::as_nanos, (&attr.crtime,), counts.0),
    ensures
        attr.size == size,
        attr.blocks == metadata.blocks,
        attr.kind == kind,
        attr.perm == (metadata.mode & 0o7777) as u16,
        attr.nlink == metadata.nlink as u32,
        attr.uid == metadata.uid,
        attr.gid == metadata.gid,
        attr.rdev == metadata.rdev as u32,
        attr.blksize == metadata.blksize as u32,
        attr.flags == 0,
        attr.atime@ == times.0@,
        attr.mtime@ == times.1@,
        attr.ctime@ == times.2@,
        metadata.created matches Some(created) ==> attr.crtime == created,
        metadata.created is None ==> counts.0 == 0,
{
}

/// The times of a backing file can be reported exactly if each of them fits.
pub proof fn law_each_backing_time_must_fit(
    metadata: &Metadata,
    valid: bool,
    fits: (bool, bool, bool),
)
    requires
        call_ensures(Metadata::has_times_in_range, (metadata,), valid),
        call_ensures(
            crate::time::fits_metadata_time,
            (metadata.atime, metadata.atime_nsec),
            fits.0,
        ),
        call_ensures(
            crate::time::fits_metadata_time,
            (metadata.mtime, metadata.mtime_nsec),
            fits.1,
        ),
        call_ensures(
            crate::time::fits_metadata_time,
            (metadata.ctime, metadata.ctime_nsec),
            fits.2,
        ),
    ensures
        valid <==> fits.0 && fits.1 && fits.2,
{
}

/// A synthetic file takes just enough blocks of 512 bytes for its size, has one link, and
/// is dated with the one time it is given.
pub proof fn law_synthetic_files_take_just_enough_blocks(
    size: u64,
    mtime: Timestamp,
    perm: u16,
    owner: (u32, u32),
    attr: NodeAttr,
)
    requires
        call_ensures(
            crate::passthrough::synthetic_file_attr,
            (size, mtime, perm, owner.0, owner.1),
            attr,
        ),
    ensures
        attr.blocks * 512 >= size,
        attr.blocks * 512 < size + 512,
        attr.size == size && attr.perm == perm && attr.uid == owner.0 && attr.gid == owner.1,
        attr.kind == FileKind::RegularFile && attr.nlink == 1 && attr.blksize == 4096,
        attr.rdev == 0 && attr.flags == 0,
        attr.atime == mtime && attr.mtime == mtime && attr.ctime == mtime && attr.crtime == mtime,
{
}

/// Status zero is success, and any other is reported with its error. A count is passed on,
/// and a negative one is a failure.
pub proof fn law_failures_are_reported_with_their_error(
    status: i32,
    count: isize,
    error: Errno,
    reply: Result<(), Errno>,
    counted: Result<usize, Errno>,
)
    requires
        call_ensures(crate::passthrough::status_reply, (status, error), reply),
        call_ensures(crate::passthrough::count_reply, (count, error), counted),
    ensures
        status == 0 ==> reply is Ok,
        status != 0 ==> reply == Err::<(), Errno>(error),
        count < 0 ==> counted == Err::<usize, Errno>(error),
        count >= 0 ==> (counted matches Ok(n) && n == count),
{
}

/// A buffer for a value is as long as the probe says; of what is then read, the first bytes
/// are the value, as many as were filled. A failure stays the failure it is.
pub proof fn law_values_are_the_bytes_that_were_filled(
    probe: usize,
    error: Errno,
    buffers: (Result<Vec<u8>, Errno>, Result<Vec<u8>, Errno>),
    buffer: Vec<u8>,
    len: usize,
    values: (Result<Vec<u8>, Errno>, Result<Vec<u8>, Errno>),
)
    requires
        call_ensures(crate::passthrough::xattr_buffer, (Ok::<usize, Errno>(probe),), buffers.0),
        call_ensures(crate::passthrough::xattr_buffer, (Err::<usize, Errno>(error),), buffers.1),
        call_ensures(crate::passthrough::xattr_value, (buffer, Ok::<usize, Errno>(len)), values.0),
        call_ensures(
            crate::passthrough::xattr_value,
            (buffer, Err::<usize, Errno>(error)),
            values.1,
        ),
    ensures
        buffers.0 matches Ok(made) && made@.len() == probe && forall|i: int|
            0 <= i < probe ==> #[trigger] made@[i] == 0,
        buffers.1 matches Err(e) && e == error,
        len <= buffer@.len() ==> (values.0 matches Ok(value) && value@ == buffer@.subrange(
            0,
            len as int,
        )),
        len > buffer@.len() ==> (values.0 matches Ok(value) && value@ == buffer@),
        values.1 matches Err(e) && e == error,
{
    if len <= buffer@.len() {
        assert(values.0->Ok_0@ =~= buffer@.subrange(0, len as int));
    }
}

/// The names of a list as byte strings.
pub open spec fn spelled(names: Seq<Vec<u8>>) -> Seq<Seq<u8>> {
    names.map_values(|name: Vec<u8>| name@)
}

/// A list without a NUL is one name, or none if it is empty.
pub proof fn law_list_without_nul_is_one_name(list: &[u8], names: Vec<Vec<u8>>)
    requires
        call_ensures(crate::passthrough::split_names, (list,), names),
        !list@.contains(0),
    ensures
        list@.len() > 0 ==> spelled(names@) == seq![list@],
        list@.len() == 0 ==> spelled(names@) == Seq::<Seq<u8>>::empty(),
{
    assert(spelled(names@) =~= crate::passthrough::name_views(names@));
    lemma_no_nul_no_split(list@);
    lemma_filter_one(list@);
}

/// A NUL ends a name: the names of two lists with a NUL between them are those of the one
/// and then those of the other.
pub proof fn law_nul_separates_names(
    first: &[u8],
    second: &[u8],
    both: &[u8],
    names: (Vec<Vec<u8>>, Vec<Vec<u8>>, Vec<Vec<u8>>),
)
    requires
        both@ == first@.push(0) + second@,
        call_ensures(crate::passthrough::split_names, (first,), names.0),
        call_ensures(crate::passthrough::split_names, (second,), names.1),
        call_ensures(crate::passthrough::split_names, (both,), names.2),
    ensures
        spelled(names.2@) == spelled(names.0@) + spelled(names.1@),
{
    lemma_split_adds(first@, second@);
    Seq::filter_distributes_over_add(
        crate::passthrough::split_at_nul(first@),
        crate::passthrough::split_at_nul(second@),
        |name: Seq<u8>| name.len() > 0,
    );
    assert(spelled(names.0@) =~= crate::passthrough::name_views(names.0@));
    assert(spelled(names.1@) =~= crate::passthrough::name_views(names.1@));
    assert(spelled(names.2@) =~= crate::passthrough::name_views(names.2@));
}

proof fn lemma_no_nul_no_split(list: Seq<u8>)
    requires
        !list.contains(0),
    ensures
        crate::passthrough::split_at_nul(list) == seq![list],
    decreases list.len(),
{
    if list.len() == 0 {
        assert(list =~= Seq::empty());
    } else {
        let shorter = list.drop_last();
        assert(list[list.len() - 1] == list.last());
        assert forall|i: int| 0 <= i < shorter.len() implies shorter[i] != 0u8 by {
            assert(list[i] == shorter[i]);
        }
        lemma_no_nul_no_split(shorter);
        assert(seq![shorter].drop_last() =~= Seq::<Seq<u8>>::empty());
        assert(shorter.push(list.last()) =~= list);
        assert(crate::passthrough::split_at_nul(list) =~= seq![list]);
    }
}

proof fn lemma_filter_one(list: Seq<u8>)
    ensures
        seq![list].filter(|name: Seq<u8>| name.len() > 0) == (if list.len() > 0 {
            seq![list]
        } else {
            Seq::empty()
        }),
{
    reveal_with_fuel(Seq::filter, 2);
    assert(seq![list].drop_last() =~= Seq::<Seq<u8>>::empty());
    assert(Seq::<Seq<u8>>::empty().push(list) =~= seq![list]);
}

proof fn lemma_split_adds(first: Seq<u8>, second: Seq<u8>)
    ensures
        crate::passthrough::split_at_nul(first.push(0) + second)
            == crate::passthrough::split_at_nul(first) + crate::passthrough::split_at_nul(second),
        crate::passthrough::split_at_nul(second).len() > 0,
    decreases second.len(),
{
    let all = first.push(0) + second;
    if second.len() == 0 {
        assert(all =~= first.push(0));
        assert(all.drop_last() =~= first);
        assert(crate::passthrough::split_at_nul(all) =~= crate::passthrough::split_at_nul(first)
            + crate::passthrough::split_at_nul(second));
    } else {
        let shorter = second.drop_last();
        lemma_split_adds(first, shorter);
        assert(all.drop_last() =~= first.push(0) + shorter);
        let a = crate::passthrough::split_at_nul(first);
        let b = crate::passthrough::split_at_nul(shorter);
        assert((a + b).drop_last() =~= a + b.drop_last());
        assert((a + b).last() == b.last());
        assert(crate::passthrough::split_at_nul(all) =~= a + crate::passthrough::split_at_nul(
            second,
        ));
    }
}

/// The names that were read are those in the bytes that were filled.
pub proof fn law_names_are_read_from_what_was_filled(
    buffer: Vec<u8>,
    len: usize,
    error: Errno,
    value: Vec<u8>,
    list: &[u8],
    split: Vec<Vec<u8>>,
    names: (Result<Vec<Vec<u8>>, Errno>, Result<Vec<Vec<u8>>, Errno>),
)
    requires
        call_ensures(
            crate::passthrough::xattr_value,
            (buffer, Ok::<usize, Errno>(len)),
            Ok::<Vec<u8>, Errno>(value),
        ),
        list@ == value@,
        call_ensures(crate::passthrough::split_names, (list,), split),
        call_ensures(crate::passthrough::xattr_names, (buffer, Ok::<usize, Errno>(len)), names.0),
        call_ensures(
            crate::passthrough::xattr_names,
            (buffer, Err::<usize, Errno>(error)),
            names.1,
        ),
    ensures
        names.0 matches Ok(read) && spelled(read@) == spelled(split@),
        names.1 matches Err(e) && e == error,
{
    assert(spelled(split@) =~= crate::passthrough::name_views(split@));
    assert(spelled(names.0->Ok_0@) =~= crate::passthrough::name_views(names.0->Ok_0@));
}

/// A path or a name is handed to a system call as its bytes and one NUL; one that has a NUL
/// itself is refused with `EINVAL`.
pub proof fn law_strings_end_with_their_only_nul(
    bytes: &[u8],
    path: Result<Vec<u8>, Errno>,
    name: Result<Vec<u8>, Errno>,
)
    requires
        call_ensures(crate::passthrough::c_path, (bytes,), path),
        call_ensures(crate::passthrough::c_name, (bytes,), name),
    ensures
        bytes@.contains(0) ==> path == Err::<Vec<u8>, Errno>(Errno(22)) && name == Err::<
            Vec<u8>,
            Errno,
        >(Errno(22)),
        !bytes@.contains(0) ==> {
            &&& path matches Ok(p) && p@ == bytes@ + seq![0u8]
            &&& name matches Ok(n) && n@ == bytes@ + seq![0u8]
        },
{
    assert(bytes@.push(0) =~= bytes@ + seq![0u8]);
}

/// An attribute is hidden exactly if its name is `com.apple.` and something, or that alone.
pub proof fn law_apple_attributes_are_hidden(name: &str, hidden: bool)
    requires
        call_ensures(crate::passthrough::is_apple_xattr, (name,), hidden),
    ensures
        hidden <==> name@.len() >= 10 && name@.subrange(0, 10) == seq![
            'c', 'o', 'm', '.', 'a', 'p', 'p', 'l', 'e', '.',
        ],
{
    reveal_strlit("com.apple.");
    assert("com.apple."@ =~= seq!['c', 'o', 'm', '.', 'a', 'p', 'p', 'l', 'e', '.']);
}

/// A FIFO, a device or a socket is made by its file-type bits; anything else is refused with
/// `EINVAL`.
pub proof fn law_special_files_are_made_by_their_type(mode: u32, call: Result<NodeCall, Errno>)
    requires
        call_ensures(crate::passthrough::node_call, (mode,), call),
    ensures
        call == Ok::<NodeCall, Errno>(NodeCall::Fifo) <==> mode & 0o170000 == 0o010000,
        call == Ok::<NodeCall, Errno>(NodeCall::Special) <==> mode & 0o170000 == 0o020000 || mode
            & 0o170000 == 0o060000 || mode & 0o170000 == 0o140000,
        call matches Err(e) ==> e.0 == 22,
{
}

} // verus!
