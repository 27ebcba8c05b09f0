//! Random picks.

use vstd::prelude::*;
use rand::Rng;

verus! {

/// `rand::Rng::gen_range` on the thread's random number generator, over
/// the range from 0 up to and not including `n`: a number below `n`,
/// drawn at random. The range must not be empty.
#[verifier::external_body]
fn random_below(n: usize) -> (r: usize)
    requires
        n > 0,
    ensures
        r < n,
{
    rand::thread_rng().gen_range(0..n)
}

/// A position in a list of `len` items, drawn at random, or `None` for
/// an empty list.
pub fn choose_index(len: usize) -> (index: Option<usize>)
    ensures
        index is None <==> len == 0,
        index matches Some(i) ==> i < len,
{
    if len == 0 {
        None
    } else {
        Some(random_below(len))
    }
}

} // verus!
