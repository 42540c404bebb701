//! Free text: the bytes that are stored, and how many of them there may be.

use vstd::prelude::*;

verus! {

/// Longest accepted project name, in bytes.
pub const MAX_NAME_LEN: usize = 100;

/// Longest accepted problem statement, in bytes.
pub const MAX_PROBLEM_STATEMENT_LEN: usize = 500;

/// Longest accepted impact area, in bytes.
pub const MAX_IMPACT_AREA_LEN: usize = 50;

/// Longest accepted title of an update, in bytes.
pub const MAX_UPDATE_TITLE_LEN: usize = 100;

/// Longest accepted body of an update, in bytes.
pub const MAX_UPDATE_BODY_LEN: usize = 1000;

/// A copy of `text`, byte for byte.
pub fn copy_text(text: &Vec<u8>) -> (copy: Vec<u8>)
    ensures
        copy@ == text@,
{
    let copy = text.clone();
    assert(copy@ =~= text@);
    copy
}

} // verus!
