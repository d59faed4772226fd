//! The session's key-handling decision: which key presses insert a
//! character. A key is modeled by its key-code value; for printable keys
//! that value is the character's code.

use vstd::prelude::*;

verus! {

/// The insertable set: space through `@`, and `[` through `z`, as key
/// codes. Letter keys report their lower-case codes, so the upper-case
/// range is not a key code and stays out.
pub open spec fn is_insertable_code(code: i32) -> bool {
    32 <= code <= 64 || 91 <= code <= 122
}

/// Decides whether a key press inserts a character: hands the key code back
/// for an insertable key, and nothing for every other key.
pub fn insertable_key(code: i32) -> (r: Option<i32>)
    ensures
        r == (if is_insertable_code(code) {
            Option::Some(code)
        } else {
            Option::<i32>::None
        }),
{
    if (32 <= code && code <= 64) || (91 <= code && code <= 122) {
        Option::Some(code)
    } else {
        Option::None
    }
}

} // verus!
