//! Bytes as two hexadecimal digits, written and read.

use vstd::prelude::*;
use vstd::string::{StrSliceExecFns, StringExecFns};

verus! {

/// The sixteen digits, in capitals or in small letters.
pub open spec fn digits(upper: bool) -> Seq<char> {
    if upper {
        "0123456789ABCDEF"@
    } else {
        "0123456789abcdef"@
    }
}

/// `byte` as two digits, the high one first.
pub open spec fn hex_pair(byte: u8, upper: bool) -> Seq<char> {
    seq![digits(upper)[byte as int / 16], digits(upper)[byte as int % 16]]
}

/// Appends `byte` to `text` as two hexadecimal digits.
pub fn push_hex(text: &mut String, byte: u8, upper: bool)
    ensures
        final(text)@ == old(text)@ + hex_pair(byte, upper),
{
    proof {
        reveal_strlit("0123456789ABCDEF");
        reveal_strlit("0123456789abcdef");
    }
    let all: &str = if upper {
        "0123456789ABCDEF"
    } else {
        "0123456789abcdef"
    };
    let hi: usize = (byte / 16) as usize;
    let lo: usize = (byte % 16) as usize;
    text.append(all.substring_char(hi, hi + 1));
    text.append(all.substring_char(lo, lo + 1));
    assert(text@ =~= old(text)@ + hex_pair(byte, upper));
}

} // verus!
