//! Minimal executable examples of binding and vector-mutation patterns a
//! lint pass remarks on.

use vstd::prelude::*;

verus! {

/// A binding that nothing reads afterwards.
pub fn test_unused_variable() {
    let _x: i32 = 5;
}

/// A read of an element followed by a mutation of the vector; the read
/// value is copied out first, so the mutation is fine.
pub fn test_borrow_error() {
    let mut values: Vec<i32> = Vec::new();
    values.push(1);
    values.push(2);
    values.push(3);
    let first: i32 = values[0];
    values.push(4);
    let _copied: i32 = first;
}

} // verus!
