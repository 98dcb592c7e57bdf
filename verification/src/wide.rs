use vstd::prelude::*;

verus! {

/// The UTF-16 code units of one character: itself below `0x10000`, else a
/// high surrogate holding the upper ten bits of `c - 0x10000` and a low
/// surrogate holding the lower ten.
pub open spec fn utf16_units(c: char) -> Seq<u16> {
    let code = c as u32;
    if code < 0x10000 {
        seq![code as u16]
    } else {
        let rest = (code - 0x10000) as u32;
        seq![(0xD800 + rest / 0x400) as u16, (0xDC00 + rest % 0x400) as u16]
    }
}

/// The UTF-16 encoding of a text.
pub open spec fn utf16(text: Seq<char>) -> Seq<u16>
    decreases text.len(),
{
    if text.len() == 0 {
        Seq::empty()
    } else {
        utf16(text.drop_last()) + utf16_units(text.last())
    }
}

/// Encodes `text` in UTF-16 and ends it with a NUL unit, the form in which
/// the Windows shell takes a path.
pub fn encode_wide_nul(text: &str) -> (units: Vec<u16>)
    ensures
        units@ == utf16(text@).push(0),
{
    let n = text.unicode_len();
    let mut units: Vec<u16> = Vec::new();
    let mut i: usize = 0;
    while i < n
        invariant
            n == text@.len(),
            i <= n,
            units@ == utf16(text@.take(i as int)),
        decreases n - i,
    {
        let c = text.get_char(i);
        let code: u32 = c as u32;
        if code < 0x10000 {
            units.push(code as u16);
        } else {
            let rest: u32 = code - 0x10000;
            assert(rest < 0x100000) by {
                assert(code <= 0x10FFFF);
            }
            units.push((0xD800 + rest / 0x400) as u16);
            units.push((0xDC00 + rest % 0x400) as u16);
        }
        assert(text@.take(i + 1).drop_last() =~= text@.take(i as int));
        i = i + 1;
    }
    assert(text@.take(n as int) =~= text@);
    units.push(0);
    units
}

} // verus!
