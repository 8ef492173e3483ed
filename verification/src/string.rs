//! Names in the form in which the host takes them: as UTF-16, and without the
//! unit zero, which the host reads as the end of a name.

use vstd::prelude::*;
use vstd::utf8::{char_is_scalar, char_u32_cast};
use widestring::U16CString;

verus! {

/// The first code point that takes two units of UTF-16.
pub const SUPPLEMENTARY: u32 = 0x1_0000;

/// The first of the units that lead a pair.
pub const HIGH_SURROGATE: u32 = 0xd800;

/// The first of the units that close a pair.
pub const LOW_SURROGATE: u32 = 0xdc00;

/// The units of UTF-16 that stand for one character: the character itself
/// below [`SUPPLEMENTARY`], and above it a pair that carries the upper ten
/// bits and the lower ten bits of its distance from there.
pub open spec fn char_units(c: char) -> Seq<u16> {
    let code = c as u32;
    if code < SUPPLEMENTARY {
        seq![code as u16]
    } else {
        let rest = (code - SUPPLEMENTARY) as int;
        seq![(HIGH_SURROGATE + rest / 0x400) as u16, (LOW_SURROGATE + rest % 0x400) as u16]
    }
}

/// The units of UTF-16 that stand for a string: those of its characters, one
/// after the other.
pub open spec fn utf16_units(s: Seq<char>) -> Seq<u16>
    decreases s.len(),
{
    if s.len() == 0 {
        Seq::empty()
    } else {
        utf16_units(s.drop_last()) + char_units(s.last())
    }
}

/// The unit zero stands in the UTF-16 form of a string exactly where the
/// string holds the character zero.
pub proof fn lemma_zero_unit(s: Seq<char>)
    ensures
        utf16_units(s).contains(0u16) <==> s.contains('\0'),
    decreases s.len(),
{
    if s.len() > 0 {
        let front = s.drop_last();
        let last = s.last();
        lemma_zero_unit(front);
        let units = char_units(last);
        let code = last as u32;
        char_is_scalar(last);
        assert(units.contains(0u16) <==> last == '\0') by {
            if code < SUPPLEMENTARY {
                assert(units[0] == code as u16);
                assert(code == 0 <==> last == '\0') by {
                    char_u32_cast(last, code);
                    char_u32_cast('\0', 0u32);
                }
                if units.contains(0u16) {
                    let i = units.index_of(0u16);
                    assert(units[i] == 0u16);
                }
            } else {
                let rest = (code - SUPPLEMENTARY) as int;
                assert(0 <= rest / 0x400 < 0x400 && 0 <= rest % 0x400 < 0x400);
                assert(units[0] != 0 && units[1] != 0);
            }
        }
        let all = utf16_units(front) + units;
        assert(all.contains(0u16) <==> (utf16_units(front).contains(0u16) || units.contains(0u16)))
            by {
            if utf16_units(front).contains(0u16) {
                let i = utf16_units(front).index_of(0u16);
                assert(all[i] == 0u16);
            }
            if units.contains(0u16) {
                let i = units.index_of(0u16);
                assert(all[utf16_units(front).len() + i] == 0u16);
            }
            if all.contains(0u16) {
                let i = all.index_of(0u16);
                if i < utf16_units(front).len() {
                    assert(utf16_units(front)[i] == 0u16);
                } else {
                    assert(units[i - utf16_units(front).len()] == 0u16);
                }
            }
        }
        assert(s.contains('\0') <==> (front.contains('\0') || last == '\0')) by {
            if front.contains('\0') {
                let i = front.index_of('\0');
                assert(s[i] == '\0');
            }
            if last == '\0' {
                assert(s[s.len() - 1] == '\0');
            }
            if s.contains('\0') {
                let i = s.index_of('\0');
                if i < s.len() - 1 {
                    assert(front[i] == '\0');
                }
            }
        }
    }
}

/// `U16CString::from_str`, followed by `U16CString::into_vec`: the string in
/// UTF-16 without a terminator, or nothing where the UTF-16 form of the
/// string holds the unit zero, which a terminated string cannot hold.
#[verifier::external_body]
fn to_wide(s: &str) -> (units: Option<Vec<u16>>)
    ensures
        match units {
            Some(units) => units@ == utf16_units(s@) && !units@.contains(0u16),
            None => utf16_units(s@).contains(0u16),
        },
{
    match U16CString::from_str(s) {
        Ok(wide) => Some(wide.into_vec()),
        Err(_) => None,
    }
}

/// The name in UTF-16, as the host takes it: without a terminator and without
/// the unit zero. A name that holds the character zero is not a name for the
/// host: for such a name there is no result.
pub fn wide_name(name: &str) -> (units: Option<Vec<u16>>)
    ensures
        match units {
            Some(units) => !name@.contains('\0') && units@ == utf16_units(name@)
                && !units@.contains(0u16),
            None => name@.contains('\0'),
        },
{
    proof {
        lemma_zero_unit(name@);
    }
    to_wide(name)
}

} // verus!
