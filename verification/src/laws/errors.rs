//! Error numbers and their text.

use vstd::prelude::*;

use crate::errno::Errno;

verus! {

/// A number that is wrapped is the number that is unwrapped, and an I/O error is reported
/// with its own number, or else as `EIO`.
pub proof fn law_error_numbers_are_kept(
    number: i32,
    wrapped: Errno,
    raw: i32,
    reported: (Errno, Errno),
)
    requires
        call_ensures(Errno::from_raw, (number,), wrapped),
        call_ensures(Errno::raw, (wrapped,), raw),
        call_ensures(Errno::from_os_error_number, (Some(number),), reported.0),
        call_ensures(Errno::from_os_error_number, (None,), reported.1),
    ensures
        raw == number,
        wrapped.0 == number,
        reported.0.0 == number,
        reported.1.0 == 5,
{
}

/// The errors that replies are made of have the numbers that Linux gives them.
pub proof fn law_errors_have_their_numbers(e: Seq<Errno>)
    requires
        e.len() == 21,
        call_ensures(Errno::eperm, (), e[0]),
        call_ensures(Errno::enoent, (), e[1]),
        call_ensures(Errno::eio, (), e[2]),
        call_ensures(Errno::enxio, (), e[3]),
        call_ensures(Errno::ebadf, (), e[4]),
        call_ensures(Errno::eacces, (), e[5]),
        call_ensures(Errno::eexist, (), e[6]),
        call_ensures(Errno::enotdir, (), e[7]),
        call_ensures(Errno::eisdir, (), e[8]),
        call_ensures(Errno::einval, (), e[9]),
        call_ensures(Errno::enospc, (), e[10]),
        call_ensures(Errno::erofs, (), e[11]),
        call_ensures(Errno::erange, (), e[12]),
        call_ensures(Errno::enametoolong, (), e[13]),
        call_ensures(Errno::enosys, (), e[14]),
        call_ensures(Errno::enotempty, (), e[15]),
        call_ensures(Errno::enodata, (), e[16]),
        call_ensures(Errno::eoverflow, (), e[17]),
        call_ensures(Errno::eilseq, (), e[18]),
        call_ensures(Errno::eopnotsupp, (), e[19]),
        call_ensures(Errno::enoattr, (), e[20]),
    ensures
        e[0].0 == 1 && e[1].0 == 2 && e[2].0 == 5 && e[3].0 == 6 && e[4].0 == 9 && e[5].0 == 13,
        e[6].0 == 17 && e[7].0 == 20 && e[8].0 == 21 && e[9].0 == 22 && e[10].0 == 28,
        e[11].0 == 30 && e[12].0 == 34 && e[13].0 == 36 && e[14].0 == 38 && e[15].0 == 39,
        e[16].0 == 61 && e[17].0 == 75 && e[18].0 == 84 && e[19].0 == 95 && e[20].0 == 61,
{
}

/// The number that a row of decimal digits says.
pub open spec fn number_said(digits: Seq<char>) -> int
    decreases digits.len(),
{
    if digits.len() == 0 {
        0
    } else {
        10 * number_said(digits.drop_last()) + (digits.last() as int - '0' as int)
    }
}

/// Each character is a decimal digit.
pub open spec fn are_digits(text: Seq<char>) -> bool {
    forall|i: int| 0 <= i < text.len() ==> '0' <= #[trigger] text[i] <= '9'
}

/// An error reads as the word `errno`, a space and its number in decimal: a sign if it is
/// negative, and digits that say the number, without leading zeros.
pub proof fn law_errors_read_as_their_number(e: Errno, text: String) -> (digits: Seq<char>)
    requires
        call_ensures(Errno::message, (e,), text),
    ensures
        e.0 >= 0 ==> text@ == seq!['e', 'r', 'r', 'n', 'o', ' '] + digits,
        e.0 < 0 ==> text@ == seq!['e', 'r', 'r', 'n', 'o', ' ', '-'] + digits,
        digits.len() > 0,
        are_digits(digits),
        digits.len() > 1 ==> digits[0] != '0',
        number_said(digits) == (if e.0 < 0 {
            -e.0
        } else {
            e.0 as int
        }),
{
    reveal_strlit("errno ");
    reveal_strlit("-");
    let n: nat = if e.0 < 0 {
        (-e.0) as nat
    } else {
        e.0 as nat
    };
    let digits = crate::text::digits(n);
    lemma_digits_say_the_number(n);
    assert("errno "@ =~= seq!['e', 'r', 'r', 'n', 'o', ' ']);
    if e.0 < 0 {
        assert("errno "@ + ("-"@ + digits) =~= seq!['e', 'r', 'r', 'n', 'o', ' ', '-'] + digits);
    }
    digits
}

proof fn lemma_digit(n: int)
    requires
        0 <= n < 10,
    ensures
        crate::text::digit(n).len() == 1,
        crate::text::digit(n)[0] as int == '0' as int + n,
        '0' <= crate::text::digit(n)[0] <= '9',
{
    reveal_strlit("0");
    reveal_strlit("1");
    reveal_strlit("2");
    reveal_strlit("3");
    reveal_strlit("4");
    reveal_strlit("5");
    reveal_strlit("6");
    reveal_strlit("7");
    reveal_strlit("8");
    reveal_strlit("9");
}

proof fn lemma_digits_say_the_number(n: nat)
    ensures
        crate::text::digits(n).len() > 0,
        are_digits(crate::text::digits(n)),
        n > 0 ==> crate::text::digits(n)[0] != '0',
        n < 10 ==> crate::text::digits(n).len() == 1,
        number_said(crate::text::digits(n)) == n,
    decreases n,
{
    let all = crate::text::digits(n);
    if n < 10 {
        lemma_digit(n as int);
        assert(all.drop_last() =~= Seq::<char>::empty());
        assert(number_said(all.drop_last()) == 0);
    } else {
        lemma_digits_say_the_number(n / 10);
        lemma_digit((n % 10) as int);
        let rest = crate::text::digits(n / 10);
        assert(all.drop_last() =~= rest);
        assert(all.last() == crate::text::digit((n % 10) as int)[0]);
        assert(all[0] == rest[0]);
        assert forall|i: int| 0 <= i < all.len() implies '0' <= #[trigger] all[i] <= '9' by {
            if i < rest.len() {
                assert(all[i] == rest[i]);
            }
        }
    }
}

} // verus!
