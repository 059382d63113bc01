//! Rendering integers as decimal text.
//!
//! Error messages in this crate embed raw status values; these helpers build
//! that text with an exact specification of every character produced.

use vstd::prelude::*;

verus! {

/// The decimal digit character for `d`.
pub open spec fn decimal_digit(d: int) -> char
    recommends
        0 <= d < 10,
{
    if d == 0 {
        '0'
    } else if d == 1 {
        '1'
    } else if d == 2 {
        '2'
    } else if d == 3 {
        '3'
    } else if d == 4 {
        '4'
    } else if d == 5 {
        '5'
    } else if d == 6 {
        '6'
    } else if d == 7 {
        '7'
    } else if d == 8 {
        '8'
    } else {
        '9'
    }
}

/// The decimal rendering of a non-negative integer, most significant digit
/// first and without leading zeros (`0` renders as `"0"`).
pub open spec fn decimal_str(n: int) -> Seq<char>
    recommends
        n >= 0,
    decreases n,
{
    if n < 10 {
        seq![decimal_digit(n)]
    } else {
        decimal_str(n / 10).push(decimal_digit(n % 10))
    }
}

/// The decimal rendering of an integer, with a leading minus sign when it is
/// negative.
pub open spec fn signed_decimal_str(n: int) -> Seq<char> {
    if n < 0 {
        seq!['-'] + decimal_str(-n)
    } else {
        decimal_str(n)
    }
}

fn decimal_digit_str(d: u64) -> (s: &'static str)
    requires
        d < 10,
    ensures
        s@ == seq![decimal_digit(d as int)],
{
    proof {
        reveal_strlit("0");
        reveal_strlit("1");
        reveal_strlit("2");
        reveal_strlit("3");
        reveal_strlit("4");
        reveal_strlit("5");
        reveal_strlit("6");
        reveal_strlit("7");
        reveal_strlit("8");
        reveal_strlit("9");
    }
    let s: &'static str = if d == 0 {
        "0"
    } else if d == 1 {
        "1"
    } else if d == 2 {
        "2"
    } else if d == 3 {
        "3"
    } else if d == 4 {
        "4"
    } else if d == 5 {
        "5"
    } else if d == 6 {
        "6"
    } else if d == 7 {
        "7"
    } else if d == 8 {
        "8"
    } else {
        "9"
    };
    proof {
        assert(s@ =~= seq![decimal_digit(d as int)]);
    }
    s
}

/// Renders a non-negative integer as decimal text.
pub fn decimal_string(n: u64) -> (s: String)
    ensures
        s@ == decimal_str(n as int),
    decreases n,
{
    if n < 10 {
        String::from_str(decimal_digit_str(n))
    } else {
        let prefix = decimal_string(n / 10);
        let s = prefix.concat(decimal_digit_str(n % 10));
        proof {
            assert(s@ =~= decimal_str(n as int));
        }
        s
    }
}

/// The error when a device path cannot be handed to a host API that takes
/// null-terminated wide strings: the path itself contains a null character.
#[derive(Debug, Clone, Copy, PartialEq, Eq, Structural)]
pub struct StrContainsNullErr;

/// The UTF-16 code units of one character: the scalar itself below
/// `0x10000`, a surrogate pair above.
pub open spec fn utf16_units(c: char) -> Seq<u16> {
    if (c as int) < 0x10000 {
        seq![c as u16]
    } else {
        seq![
            (0xD800 + ((c as int - 0x10000) / 0x400)) as u16,
            (0xDC00 + ((c as int - 0x10000) % 0x400)) as u16,
        ]
    }
}

/// The UTF-16 encoding of a string.
pub open spec fn utf16_encoding(s: Seq<char>) -> Seq<u16>
    decreases s.len(),
{
    if s.len() == 0 {
        Seq::empty()
    } else {
        utf16_encoding(s.drop_last()) + utf16_units(s.last())
    }
}

/// Encodes a device path as a null-terminated UTF-16 string, the form the
/// host's wide-string APIs take, refusing a path that already contains a
/// null character (it could not be told apart from the terminator).
pub fn utf16_null_terminated(s: &str) -> (r: Result<Vec<u16>, StrContainsNullErr>)
    ensures
        r matches Ok(units) ==> units@ == utf16_encoding(s@).push(0u16) && !s@.contains('\0'),
        r is Err <==> s@.contains('\0'),
{
    let len = s.unicode_len();
    let mut units: Vec<u16> = Vec::new();
    let mut idx: usize = 0;
    proof {
        assert(s@.take(0) =~= Seq::<char>::empty());
    }
    while idx < len
        invariant
            idx <= len,
            len == s@.len(),
            units@ == utf16_encoding(s@.take(idx as int)),
            forall|j: int| 0 <= j < idx ==> s@[j] != '\0',
        decreases len - idx,
    {
        let c = s.get_char(idx);
        if c == '\0' {
            proof {
                assert(s@.contains('\0')) by {
                    assert(s@[idx as int] == '\0');
                }
            }
            return Err(StrContainsNullErr);
        }
        let v = c as u32;
        if v < 0x10000 {
            units.push(v as u16);
            proof {
                assert(v as u16 == c as u16);
            }
        } else {
            let offset = v - 0x10000;
            units.push((0xD800 + offset / 0x400) as u16);
            units.push((0xDC00 + offset % 0x400) as u16);
        }
        idx = idx + 1;
        proof {
            assert(s@.take(idx as int).drop_last() =~= s@.take(idx as int - 1));
            assert(s@.take(idx as int).last() == s@[idx as int - 1]);
            assert(units@ =~= utf16_encoding(s@.take(idx as int)));
        }
    }
    units.push(0);
    proof {
        assert(s@.take(len as int) =~= s@);
        assert(!s@.contains('\0')) by {
            if s@.contains('\0') {
                let i = choose|i: int| 0 <= i < s@.len() && s@[i] == '\0';
                assert(s@[i] != '\0');
            }
        }
    }
    Ok(units)
}

/// Renders an integer as decimal text, with a minus sign when negative.
pub fn signed_decimal_string(n: i64) -> (s: String)
    ensures
        s@ == signed_decimal_str(n as int),
{
    if n >= 0 {
        decimal_string(n as u64)
    } else {
        let magnitude: u64 = (-(n as i128)) as u64;
        let rendered = decimal_string(magnitude);
        let s = String::from_str("-").concat(rendered.as_str());
        proof {
            reveal_strlit("-");
            assert(s@ =~= signed_decimal_str(n as int));
        }
        s
    }
}

} // verus!
