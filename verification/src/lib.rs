//! A handful of small, self-contained exercises, each with a stated contract.

use vstd::prelude::*;

pub mod doubling;
pub mod people;
pub mod shared_list;
pub mod student;

verus! {

/// Adds two integers.
///
/// The sum has to fit in an `i32`; the result is then the exact sum.
///
/// # Example
/// ```
/// assert_eq!(2, my_fancy_project::add_integers(1, 1));
/// ```
pub fn add_integers(x: i32, y: i32) -> (sum: i32)
    requires
        i32::MIN <= x + y <= i32::MAX,
    ensures
        sum == x + y,
{
    x + y
}

/// The first part of a pair.
pub fn first<T, V>(binary_tuple: (T, V)) -> (head: T)
    ensures
        head == binary_tuple.0,
{
    binary_tuple.0
}

} // verus!
