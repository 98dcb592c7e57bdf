use vstd::prelude::*;

use crate::wide::{encode_wide_nul, utf16};

verus! {

/// The shell name of the recycle bin folder.
pub const BIN_PATH: &'static str = "shell:::{645FF040-5081-101B-9F08-00AA002F954E}";

/// The shell name of the recycle bin, NUL-terminated UTF-16, as the shell
/// takes it to open the folder.
pub fn get_bin_path() -> (path: Vec<u16>)
    ensures
        path@ == utf16(BIN_PATH@).push(0),
{
    encode_wide_nul(BIN_PATH)
}

/// The size in bytes and the number of files of the bin that the shell's
/// query reported: known when the query returned 0 (success), each count
/// taken as unsigned.
pub open spec fn spec_bin_size(result: i32, size: i64, items: i64) -> Option<(u64, u64)> {
    if result == 0 {
        Some((size as u64, items as u64))
    } else {
        None
    }
}

/// Reads the answer of the shell's query of the bin: `result` is what the
/// query returned, `size` and `items` what it filled in.
pub fn bin_size_from_query(result: i32, size: i64, items: i64) -> (info: Option<(u64, u64)>)
    ensures
        info == spec_bin_size(result, size, items),
{
    if result == 0 {
        return Some((size as u64, items as u64));
    }
    None
}


/// The shell's answer gives the bin's size and file count exactly when the
/// query returned 0, and then gives the reported numbers themselves: a
/// non-negative count unchanged, a negative one read as its 64-bit two's
/// complement pattern.
pub proof fn lemma_bin_size_reads_query(result: i32, size: i64, items: i64)
    ensures
        spec_bin_size(result, size, items) is Some == (result == 0),
        spec_bin_size(result, size, items) matches Some((bytes, files)) ==> {
            &&& bytes as int == (if size >= 0 { size as int } else { size + 0x1_0000_0000_0000_0000 })
            &&& files as int == (if items >= 0 { items as int } else { items + 0x1_0000_0000_0000_0000 })
        },
{
    assert(size >= 0 ==> size as u64 == size) by (bit_vector);
    assert(size < 0 ==> size as u64 == size + 0x1_0000_0000_0000_0000) by (bit_vector);
    assert(items >= 0 ==> items as u64 == items) by (bit_vector);
    assert(items < 0 ==> items as u64 == items + 0x1_0000_0000_0000_0000) by (bit_vector);
}

} // verus!
