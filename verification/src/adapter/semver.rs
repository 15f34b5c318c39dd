//! Reading the version that a wallet or a feature reports.

use crate::adapter::errors::WalletError;
use crate::adapter::errors::WalletErrorView;
use crate::adapter::errors::WalletResult;
use crate::base::version::SemverVersion;
use crate::text::chars_of;
use crate::text::copy_range;
use crate::text::split;
use crate::text::split_on;
use crate::text::string_of;
use crate::text::views;
use vstd::prelude::*;

verus! {

/// Whether `c` is one of the digits `0` to `9`.
pub open spec fn is_digit(c: char) -> bool {
    '0' <= c <= '9'
}

/// The number that the digit `c` stands for.
pub open spec fn digit_value(c: char) -> nat {
    (c as u32 - '0' as u32) as nat
}

/// The number that the decimal digits `s` write.
pub open spec fn digits_value(s: Seq<char>) -> nat
    decreases s.len(),
{
    if s.len() == 0 {
        0
    } else {
        digits_value(s.drop_last()) * 10 + digit_value(s.last())
    }
}

/// `s` without a leading plus sign.
pub open spec fn unsigned_part(s: Seq<char>) -> Seq<char> {
    if s.len() > 0 && s[0] == '+' {
        s.drop_first()
    } else {
        s
    }
}

/// The byte that `s` writes in decimal: one or more digits, with or
/// without a plus sign in front, that make no more than 255.
pub open spec fn parsed_u8(s: Seq<char>) -> Option<u8> {
    let d = unsigned_part(s);
    if d.len() > 0 && (forall|i: int| 0 <= i < d.len() ==> is_digit(#[trigger] d[i]))
        && digits_value(d) <= 255 {
        Some(digits_value(d) as u8)
    } else {
        None
    }
}

/// The three numbers that the version `text` writes, or the reason why it
/// writes none: not three parts between dots, or a part that is no byte.
pub open spec fn parsed_version(text: Seq<char>) -> Result<(u8, u8, u8), WalletErrorView> {
    let parts = split(text, '.');
    if parts.len() != 3 {
        Err(WalletErrorView::InvalidWalletVersion(text))
    } else if parsed_u8(parts[0]) is None {
        Err(WalletErrorView::InvalidSemVerNumber(parts[0]))
    } else if parsed_u8(parts[1]) is None {
        Err(WalletErrorView::InvalidSemVerNumber(parts[1]))
    } else if parsed_u8(parts[2]) is None {
        Err(WalletErrorView::InvalidSemVerNumber(parts[2]))
    } else {
        Ok((parsed_u8(parts[0])->0, parsed_u8(parts[1])->0, parsed_u8(parts[2])->0))
    }
}

/// The value of a prefix of a row of digits is no larger than the value of the row.
pub proof fn lemma_digits_value_grows(s: Seq<char>, k: int)
    requires
        0 <= k <= s.len(),
    ensures
        digits_value(s.subrange(0, k)) <= digits_value(s),
    decreases s.len() - k,
{
    if k == s.len() {
        assert(s.subrange(0, k) =~= s);
    } else {
        lemma_digits_value_grows(s.drop_last(), k);
        assert(s.drop_last().subrange(0, k) =~= s.subrange(0, k));
    }
}

/// Computes `parsed_u8`.
pub fn parse_u8(s: &[char]) -> (r: Option<u8>)
    ensures
        r == parsed_u8(s@),
{
    let n: usize = s.len();
    let start: usize = if n > 0 && s[0] == '+' {
        1
    } else {
        0
    };
    let ghost d = unsigned_part(s@);
    proof {
        assert(d =~= s@.subrange(start as int, n as int));
    }
    if start == n {
        return None;
    }
    let mut acc: u16 = 0;
    let mut i: usize = start;
    while i < n
        invariant
            n == s@.len(),
            start <= i <= n,
            d == unsigned_part(s@),
            d == s@.subrange(start as int, n as int),
            forall|j: int| 0 <= j < i - start ==> is_digit(#[trigger] d[j]),
            acc == digits_value(d.subrange(0, i - start)),
            acc <= 255,
        decreases n - i,
    {
        let c: char = s[i];
        if !('0' <= c && c <= '9') {
            proof {
                assert(d[i - start] == c);
                assert(!is_digit(d[i - start]));
            }
            return None;
        }
        let digit: u16 = (c as u32 - '0' as u32) as u16;
        proof {
            let next = d.subrange(0, i - start + 1);
            assert(d[i - start] == c);
            assert(next.drop_last() =~= d.subrange(0, i - start));
            assert(next.last() == c);
            assert(digit == digit_value(c));
            assert(digits_value(next) == acc * 10 + digit);
        }
        let value: u16 = acc * 10 + digit;
        if value > 255 {
            proof {
                lemma_digits_value_grows(d, i - start + 1);
            }
            return None;
        }
        acc = value;
        i += 1;
    }
    proof {
        assert(d.subrange(0, n - start) =~= d);
    }
    Some(acc as u8)
}

/// Reads a version of the form `major.minor.patch`.
pub fn parse_version(text: &str) -> (r: WalletResult<SemverVersion>)
    ensures
        match parsed_version(text@) {
            Ok(numbers) => r matches Ok(v) && v.numbers() == numbers,
            Err(e) => r matches Err(x) && x@ == e,
        },
{
    let chars = chars_of(text);
    let parts = split_on(chars.as_slice(), '.');
    if parts.len() != 3 {
        return Err(WalletError::InvalidWalletVersion(text.to_owned()));
    }
    proof {
        assert(views(parts@)[0] == parts@[0]@);
        assert(views(parts@)[1] == parts@[1]@);
        assert(views(parts@)[2] == parts@[2]@);
    }
    let major = match parse_u8(parts[0].as_slice()) {
        Some(n) => n,
        None => {
            return Err(WalletError::InvalidSemVerNumber(string_of(parts[0].as_slice())));
        },
    };
    let minor = match parse_u8(parts[1].as_slice()) {
        Some(n) => n,
        None => {
            return Err(WalletError::InvalidSemVerNumber(string_of(parts[1].as_slice())));
        },
    };
    let patch = match parse_u8(parts[2].as_slice()) {
        Some(n) => n,
        None => {
            return Err(WalletError::InvalidSemVerNumber(string_of(parts[2].as_slice())));
        },
    };
    Ok(SemverVersion::new().set_major(major).set_minor(minor).set_patch(patch))
}

} // verus!
