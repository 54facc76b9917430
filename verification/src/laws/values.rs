//! Small values: what they are made of is what they say.

use vstd::prelude::*;

use std::sync::Arc;

use crate::attr::NodeAttr;
use crate::conv::Ttl;
use crate::errno::Errno;
use crate::node_fs::{Caller, XattrReply};
use crate::path_fs::PathEntry;
use crate::tree::PathNode;

verus! {

/// An error made from a number has that number. One made from an I/O error has the number
/// that the system gave that, or else says `EIO`.
pub proof fn law_errors_are_made_from_numbers(
    number: i32,
    error: std::io::Error,
    made: (Errno, Errno),
)
    requires
        call_ensures(<Errno as From<i32>>::from, (number,), made.0),
        call_ensures(<Errno as From<std::io::Error>>::from, (error,), made.1),
    ensures
        made.0.0 == number,
        crate::errno::os_error_number(error) is Some ==> made.1.0
            == crate::errno::os_error_number(error)->0,
        crate::errno::os_error_number(error) is None ==> made.1.0 == 5,
{
}

/// An extended attribute's value is replied as it is.
pub proof fn law_values_are_replied_as_they_are(data: Vec<u8>, reply: XattrReply)
    requires
        call_ensures(<XattrReply as From<Vec<u8>>>::from, (data,), reply),
    ensures
        reply == XattrReply::Data(data),
{
}

/// An entry holds its attributes and its state, a lifetime its seconds and nanoseconds, and a
/// copy of a payload is that payload; a caller by default is the root user.
pub proof fn law_values_hold_what_they_are_made_of<S>(
    attr: NodeAttr,
    state: Arc<S>,
    entry: PathEntry<S>,
    secs: u64,
    nanos: u32,
    ttl: Ttl,
    node: &PathNode<S>,
    copy: PathNode<S>,
    caller: Caller,
)
    requires
        call_ensures(PathEntry::<S>::new, (attr, state), entry),
        call_ensures(Ttl::new, (secs, nanos), ttl),
        call_ensures(<PathNode<S> as Clone>::clone, (node,), copy),
        call_ensures(<Caller as Default>::default, (), caller),
    ensures
        entry.attr == attr,
        entry.state == state,
        ttl.secs == secs && ttl.nanos == nanos,
        copy.key() == node.key() && copy.state() == node.state(),
        caller.uid == 0 && caller.gid == 0 && caller.pid == 0 && caller.umask == 0,
{
}

/// Two texts are the same exactly if they are the same characters, and one begins with another
/// exactly if it has the other's characters at its start.
pub proof fn law_texts_are_compared_by_their_characters(
    a: &str,
    b: &str,
    same: bool,
    begins: bool,
)
    requires
        call_ensures(crate::text::same_text, (a, b), same),
        call_ensures(crate::text::begins_with, (a, b), begins),
    ensures
        same <==> a@.len() == b@.len() && forall|i: int|
            0 <= i < a@.len() ==> #[trigger] a@[i] == b@[i],
        begins <==> b@.len() <= a@.len() && forall|i: int|
            0 <= i < b@.len() ==> #[trigger] b@[i] == a@[i],
{
    if a@.len() == b@.len() && forall|i: int| 0 <= i < a@.len() ==> #[trigger] a@[i] == b@[i] {
        assert(a@ =~= b@);
    }
    if begins {
        assert(b@ =~= a@.subrange(0, b@.len() as int));
        assert forall|i: int| 0 <= i < b@.len() implies #[trigger] b@[i] == a@[i] by {
            assert(a@.subrange(0, b@.len() as int)[i] == a@[i]);
        }
    } else if b@.len() <= a@.len() && forall|i: int|
        0 <= i < b@.len() ==> #[trigger] b@[i] == a@[i] {
        assert(b@ =~= a@.subrange(0, b@.len() as int));
    }
}

/// A number is appended to a text as it stands in the message of the error with that number.
pub proof fn law_numbers_are_appended_as_errors_read(
    args: (&mut String, i32),
    e: Errno,
    message: String,
)
    requires
        call_ensures(crate::text::append_decimal, args, ()),
        e.0 == args.1,
        call_ensures(Errno::message, (e,), message),
    ensures
        exists|number: Seq<char>|
            message@ == seq!['e', 'r', 'r', 'n', 'o', ' '] + number && #[trigger] (old(args.0)@
                + number) == final(args.0)@,
{
    reveal_strlit("errno ");
    assert("errno "@ =~= seq!['e', 'r', 'r', 'n', 'o', ' ']);
    let number = crate::text::decimal(args.1 as int);
    assert(old(args.0)@ + number == final(args.0)@);
}

} // verus!
