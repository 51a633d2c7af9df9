//! Doubling every entry of a list: one entry after the other, or all of them on a pool of
//! threads.

use rayon::iter::IntoParallelRefIterator;
use rayon::iter::ParallelIterator;
use vstd::prelude::*;

verus! {

/// Whether twice `x` is still an `i32`.
pub open spec fn double_fits(x: i32) -> bool {
    i32::MIN <= 2 * x <= i32::MAX
}

/// Whether twice each entry of `data` is still an `i32`.
pub open spec fn all_doubles_fit(data: Seq<i32>) -> bool {
    forall|i: int| 0 <= i < data.len() ==> double_fits(#[trigger] data[i])
}

/// Whether `out` is `data` with every entry doubled: as long as `data`, and twice as
/// large at each place.
pub open spec fn is_doubled(out: Seq<i32>, data: Seq<i32>) -> bool {
    &&& out.len() == data.len()
    &&& forall|i: int| 0 <= i < data.len() ==> #[trigger] out[i] == 2 * data[i]
}

/// Twice `x`.
pub fn double(x: i32) -> (twice: i32)
    requires
        double_fits(x),
    ensures
        twice == 2 * x,
{
    2 * x
}

/// Decides whether every entry of `data` can be doubled without leaving `i32`.
pub fn doubles_fit(data: &Vec<i32>) -> (fit: bool)
    ensures
        fit == all_doubles_fit(data@),
{
    let mut at: usize = 0;
    while at < data.len()
        invariant
            at <= data.len(),
            forall|i: int| 0 <= i < at ==> double_fits(#[trigger] data@[i]),
        decreases data.len() - at,
    {
        let x: i32 = data[at];
        if x < i32::MIN / 2 || x > i32::MAX / 2 {
            assert(!double_fits(data@[at as int]));
            return false;
        }
        at += 1;
    }
    true
}

/// Doubles every entry of `data`, one after the other.
pub fn double_all(data: &Vec<i32>) -> (out: Vec<i32>)
    requires
        all_doubles_fit(data@),
    ensures
        is_doubled(out@, data@),
{
    let mut out: Vec<i32> = Vec::new();
    let mut at: usize = 0;
    while at < data.len()
        invariant
            at <= data.len(),
            all_doubles_fit(data@),
            is_doubled(out@, data@.take(at as int)),
        decreases data.len() - at,
    {
        out.push(double(data[at]));
        at += 1;
    }
    out
}

/// Doubles every entry of `data` on rayon's pool of threads. The entries come back in the
/// order in which `data` holds them, as from [`double_all`].
pub fn double_all_in_parallel(data: &Vec<i32>) -> (out: Vec<i32>)
    requires
        all_doubles_fit(data@),
    ensures
        is_doubled(out@, data@),
{
    par_map_double(data)
}

/// The call into rayon: `IntoParallelRefIterator::par_iter` on the list,
/// `ParallelIterator::map` with [`double`], and `ParallelIterator::collect` into a new
/// `Vec`. Not proved: that rayon hands `double` each entry once and puts what it returns
/// at the entry's own place, so that the new list is as long as `data` and holds, in the
/// same order, twice each entry. A parallel iterator over a slice knows its length and the
/// place of each item, and `collect` into a `Vec` keeps to them. Since no double leaves
/// `i32`, `double` is never called outside its own terms.
#[verifier::external_body]
fn par_map_double(data: &Vec<i32>) -> (out: Vec<i32>)
    requires
        all_doubles_fit(data@),
    ensures
        is_doubled(out@, data@),
{
    data.par_iter().map(|x| double(*x)).collect()
}

/// Doubling leaves no choice: two lists that are both `data` doubled are the same list.
/// So the parallel map returns what the sequential one returns.
pub proof fn lemma_doubling_is_determined(data: Seq<i32>, one: Seq<i32>, other: Seq<i32>)
    requires
        is_doubled(one, data),
        is_doubled(other, data),
    ensures
        one == other,
{
    assert(one =~= other);
}

} // verus!
