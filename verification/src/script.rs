//! Functions of the sample script that users run remotely.
use vstd::prelude::*;

verus! {

/// The sum of two integers; the sum must fit in an `i64`, as the script's
/// checked arithmetic stops otherwise.
pub fn add(a: i64, b: i64) -> (r: i64)
    requires
        i64::MIN <= a + b <= i64::MAX,
    ensures
        r == a + b,
{
    a + b
}

} // verus!
