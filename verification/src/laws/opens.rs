//! Open files, connections, extended attributes and reply buffers.

use vstd::prelude::*;

use crate::attr::FileKind;
use crate::conv::{EntryParam, RawStat, Ttl};
use crate::errno::Errno;
use crate::ffi::{EntryReply, FileInfo, RawConnInfo, RawDirentBuf};
use crate::node_fs::{ConnInfo, ConnectionCapability, OpenHints, Opened, XattrReply};
use crate::node_id::NodeId;

verus! {

/// A handle that is written into a file record is read from it, and the record says each
/// hint as it was given; overlapping direct writes only together with direct I/O. The open
/// flags stay.
pub proof fn law_opened_files_say_their_handle_and_hints(
    args: (Option<&mut FileInfo>, u64, OpenHints),
    fh: u64,
    optional: Option<u64>,
    flags: i32,
)
    requires
        args.0 is Some,
        call_ensures(crate::ffi::apply_open, args, ()),
        call_ensures(crate::ffi::fi_fh, (Some(&*final(args.0->0)),), fh),
        call_ensures(crate::ffi::fi_fh_opt, (Some(&*final(args.0->0)),), optional),
        call_ensures(crate::ffi::fi_flags, (Some(&*final(args.0->0)),), flags),
    ensures
        fh == args.1,
        optional == Some(args.1),
        flags == (*old(args.0->0)).flags,
        (*final(args.0->0)).direct_io == args.2.direct_io,
        (*final(args.0->0)).keep_cache == args.2.keep_cache,
        (*final(args.0->0)).nonseekable == args.2.nonseekable,
        (*final(args.0->0)).cache_readdir == args.2.cache_readdir,
        (*final(args.0->0)).parallel_direct_writes <==> args.2.direct_io
            && args.2.parallel_direct_writes,
{
}

/// A record that is not there has handle zero, told apart from a record with handle zero.
pub proof fn law_absent_records_are_told_apart(
    fi: &FileInfo,
    absent: (u64, Option<u64>, i32),
    present: (u64, Option<u64>, i32),
)
    requires
        call_ensures(crate::ffi::fi_fh, (None,), absent.0),
        call_ensures(crate::ffi::fi_fh_opt, (None,), absent.1),
        call_ensures(crate::ffi::fi_flags, (None,), absent.2),
        call_ensures(crate::ffi::fi_fh, (Some(fi),), present.0),
        call_ensures(crate::ffi::fi_fh_opt, (Some(fi),), present.1),
        call_ensures(crate::ffi::fi_flags, (Some(fi),), present.2),
    ensures
        absent.0 == 0 && absent.1 is None && absent.2 == 0,
        present.0 == fi.fh && present.1 == Some(fi.fh) && present.2 == fi.flags,
{
}

/// A fresh handle has no hint, and each builder sets its own hint and nothing else.
pub proof fn law_each_hint_is_set_alone<H>(
    handle: H,
    fresh: Opened<H>,
    given: Opened<H>,
    value: bool,
    direct_io: Opened<H>,
    keep_cache: Opened<H>,
    nonseekable: Opened<H>,
    cache_readdir: Opened<H>,
    parallel: Opened<H>,
)
    requires
        call_ensures(Opened::<H>::new, (handle,), fresh),
        call_ensures(Opened::<H>::direct_io, (given, value), direct_io),
        call_ensures(Opened::<H>::keep_cache, (given, value), keep_cache),
        call_ensures(Opened::<H>::nonseekable, (given, value), nonseekable),
        call_ensures(Opened::<H>::cache_readdir, (given, value), cache_readdir),
        call_ensures(Opened::<H>::parallel_direct_writes, (given, value), parallel),
    ensures
        fresh.handle == handle,
        !fresh.hints.direct_io && !fresh.hints.keep_cache && !fresh.hints.nonseekable,
        !fresh.hints.cache_readdir && !fresh.hints.parallel_direct_writes,
        direct_io == (Opened { hints: OpenHints { direct_io: value, ..given.hints }, ..given }),
        keep_cache == (Opened { hints: OpenHints { keep_cache: value, ..given.hints }, ..given }),
        nonseekable == (Opened { hints: OpenHints { nonseekable: value, ..given.hints }, ..given }),
        cache_readdir == (Opened {
            hints: OpenHints { cache_readdir: value, ..given.hints },
            ..given
        }),
        parallel == (Opened {
            hints: OpenHints { parallel_direct_writes: value, ..given.hints },
            ..given
        }),
{
}

/// The connection flag of a capability, by number.
pub open spec fn flag_number(capability: ConnectionCapability) -> u32 {
    match capability {
        ConnectionCapability::AsyncRead => 0x1,
        ConnectionCapability::AsyncDirectIo => 0x8000,
        ConnectionCapability::ParallelDirectoryOperations => 0x40000,
    }
}

/// What is read from a connection and written back unchanged leaves it as it was, and a
/// capability is supported or requested exactly by its bit.
pub proof fn law_connections_are_read_bit_by_bit(
    conn: &RawConnInfo,
    info: ConnInfo,
    capability: ConnectionCapability,
    supported: bool,
    requested: bool,
    back: (&mut RawConnInfo, &ConnInfo),
)
    requires
        call_ensures(crate::ffi::conn_read, (conn,), info),
        call_ensures(ConnInfo::capable, (&info, capability), supported),
        call_ensures(ConnInfo::enabled, (&info, capability), requested),
        *old(back.0) == *conn,
        *back.1 == info,
        call_ensures(crate::ffi::conn_apply, back, ()),
    ensures
        supported <==> conn.capable & flag_number(capability) != 0,
        requested <==> conn.want & flag_number(capability) != 0,
        *final(back.0) == *conn,
        info@.proto_major == conn.proto_major && info@.proto_minor == conn.proto_minor,
{
}

/// Requesting a capability succeeds exactly if the kernel supports it, disabling one always;
/// what was requested or disabled is found so afterwards, in the connection that it is
/// written into as well, and every other bit stays.
pub proof fn law_requested_capabilities_reach_the_connection(
    args: (&mut ConnInfo, ConnectionCapability, bool),
    done: bool,
    supported: bool,
    requested: bool,
    other: ConnectionCapability,
    others: (bool, bool),
    back: (&mut RawConnInfo, &ConnInfo),
    want: (u32, u32),
    bit: u32,
)
    requires
        call_ensures(ConnInfo::set_enabled, args, done),
        call_ensures(ConnInfo::capable, (&*old(args.0), args.1), supported),
        call_ensures(ConnInfo::enabled, (&*final(args.0), args.1), requested),
        other != args.1,
        call_ensures(ConnInfo::enabled, (&*old(args.0), other), others.0),
        call_ensures(ConnInfo::enabled, (&*final(args.0), other), others.1),
        call_ensures(ConnInfo::want_bits, (&*old(args.0),), want.0),
        call_ensures(ConnInfo::want_bits, (&*final(args.0),), want.1),
        *back.1 == *final(args.0),
        call_ensures(crate::ffi::conn_apply, back, ()),
        bit & flag_number(args.1) == 0,
    ensures
        done <==> supported || !args.2,
        done ==> requested == args.2,
        !done ==> want.1 == want.0,
        others.0 == others.1,
        want.1 & bit == want.0 & bit,
        (*final(back.0)).want == want.1,
        (*final(back.0)).capable == (*old(back.0)).capable,
        (*final(back.0)).proto_major == (*old(back.0)).proto_major,
        (*final(back.0)).proto_minor == (*old(back.0)).proto_minor,
        (*final(back.0)).max_write == (*final(args.0))@.max_write,
        (*final(back.0)).max_readahead == (*final(args.0))@.max_readahead,
        (*final(args.0))@.max_write == (*old(args.0))@.max_write,
        (*final(args.0))@.max_readahead == (*old(args.0))@.max_readahead,
{
    let flag = flag_number(args.1);
    let apart = flag_number(other);
    let before = want.0;
    assert(crate::node_fs::capability_flag(args.1) == flag);
    assert(crate::node_fs::capability_flag(other) == apart);
    assert(0x1u32 & 0x8000 == 0 && 0x1u32 & 0x40000 == 0 && 0x8000u32 & 0x40000 == 0 && 0x8000u32
        & 0x1 == 0 && 0x40000u32 & 0x1 == 0 && 0x40000u32 & 0x8000 == 0) by (bit_vector);
    crate::node_fs::law_capability_update_keeps_other_flags(args.1, before, bit);
    crate::node_fs::law_capability_update_keeps_other_flags(args.1, before, apart);
}

/// The size protocol of extended attributes: asking with size zero gives the length, a
/// buffer that the value fits gives the value, a smaller one `ERANGE`.
pub proof fn law_values_are_given_if_they_fit(
    data: Vec<u8>,
    size: usize,
    reply: Result<XattrReply, Errno>,
)
    requires
        call_ensures(XattrReply::sized, (data, size), reply),
        data@.len() <= usize::MAX,
    ensures
        size == 0 ==> (reply matches Ok(XattrReply::Size(length)) && length == data@.len()),
        0 < size < data@.len() ==> reply == Err::<XattrReply, Errno>(Errno(34)),
        size > 0 && data@.len() <= size ==> (reply matches Ok(XattrReply::Data(value)) && value@
            == data@),
{
}

/// A reply buffer starts out empty and holds at most the size that was asked for. An entry
/// that fits goes behind what is there, whole; one that does not fit is refused, and one
/// whose name has a NUL is passed over, and both change nothing.
pub proof fn law_entries_fill_the_buffer_in_order(
    buf: (&mut RawDirentBuf, &[u8], &[u8]),
    plus: bool,
    more: bool,
    before: &[u8],
    after: &[u8],
    size: usize,
)
    requires
        plus ==> call_ensures(RawDirentBuf::add_plus, buf, more),
        !plus ==> call_ensures(RawDirentBuf::add, buf, more),
        call_ensures(RawDirentBuf::as_slice, (&*old(buf.0),), before),
        call_ensures(RawDirentBuf::as_slice, (&*final(buf.0),), after),
        (*old(buf.0))@.capacity == size,
    ensures
        buf.1@.contains(0) ==> more && after@ == before@,
        !buf.1@.contains(0) ==> (more <==> before@.len() + buf.2@.len() <= size),
        !buf.1@.contains(0) && more ==> after@ == before@ + buf.2@,
        !more ==> after@ == before@,
        (*final(buf.0))@.capacity == size,
{
}

/// A new buffer is empty, has the size that was asked for, and one for entries with
/// attributes gives each of them the lifetime it was made with.
pub proof fn law_new_buffers_are_empty(
    size: usize,
    ttl: Ttl,
    plain: RawDirentBuf,
    plus: RawDirentBuf,
    contents: (&[u8], &[u8]),
)
    requires
        call_ensures(RawDirentBuf::new, (size,), plain),
        call_ensures(RawDirentBuf::new_plus, (size, ttl), plus),
        call_ensures(RawDirentBuf::as_slice, (&plain,), contents.0),
        call_ensures(RawDirentBuf::as_slice, (&plus,), contents.1),
    ensures
        contents.0@.len() == 0,
        contents.1@.len() == 0,
        plain@.capacity == size,
        plus@.capacity == size,
        plus@.ttl == ttl,
{
}

/// A plain entry hands over its name with one NUL behind it and a record that says its
/// node and its kind and nothing else; a name that has a NUL hands over nothing.
pub proof fn law_plain_entries_carry_node_and_kind(
    buf: &RawDirentBuf,
    name: &[u8],
    id: NodeId,
    kind: FileKind,
    ino: u64,
    entry: Option<(Vec<u8>, RawStat)>,
)
    requires
        call_ensures(RawDirentBuf::plain_entry, (buf, name, id, kind), entry),
        call_ensures(NodeId::ino, (id,), ino),
    ensures
        entry is None <==> name@.contains(0),
        entry matches Some((cname, st)) ==> {
            &&& cname@ == name@.push(0)
            &&& st.st_ino == ino
            &&& st.st_mode == crate::laws::attributes::type_bits(kind)
            &&& st.st_size == 0 && st.st_nlink == 0 && st.st_uid == 0 && st.st_gid == 0
            &&& st.st_rdev == 0 && st.st_blocks == 0 && st.st_blksize == 0
        },
{
}

/// An entry with attributes hands over its name with one NUL behind it and the entry reply
/// that says its node, its generation, its attributes and the buffer's lifetime.
pub proof fn law_plus_entries_carry_the_reply(
    buf: &RawDirentBuf,
    name: &[u8],
    entry: &EntryReply,
    encoded: Option<(Vec<u8>, EntryParam)>,
    param: EntryParam,
)
    requires
        call_ensures(RawDirentBuf::plus_entry, (buf, name, entry), encoded),
        call_ensures(
            crate::conv::entry_to_entry_param,
            (entry.ino, entry.generation, &entry.attr, buf@.ttl),
            param,
        ),
    ensures
        encoded is None <==> name@.contains(0),
        encoded matches Some((cname, made)) ==> cname@ == name@.push(0) && made == param,
{
    if let Some((cname, made)) = encoded {
        crate::laws::attributes::lemma_one_record(
            made.attr.st_atim,
            param.attr.st_atim,
            entry.attr.atime@,
        );
        crate::laws::attributes::lemma_one_record(
            made.attr.st_mtim,
            param.attr.st_mtim,
            entry.attr.mtime@,
        );
        crate::laws::attributes::lemma_one_record(
            made.attr.st_ctim,
            param.attr.st_ctim,
            entry.attr.ctime@,
        );
    }
}

/// By default no hint is given.
pub proof fn law_no_hint_is_given_by_default(hints: OpenHints)
    requires
        call_ensures(<OpenHints as Default>::default, (), hints),
    ensures
        !hints.direct_io && !hints.keep_cache && !hints.nonseekable,
        !hints.cache_readdir && !hints.parallel_direct_writes,
{
}

} // verus!
