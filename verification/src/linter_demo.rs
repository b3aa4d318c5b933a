//! Minimal executable examples of local-binding patterns a lint pass
//! remarks on.

use vstd::prelude::*;

verus! {

/// A statement that a missing semicolon would break; here it is complete.
pub fn syntax_error() {
    let _x: i32 = 5;
}

/// A binding that nothing reads afterwards.
pub fn unused_variable() {
    let _x: i32 = 5;
}

} // verus!
