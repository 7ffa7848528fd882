//! The parallel batch driver: fan the single-item decoder out over the
//! process-wide worker pool and collect one outcome per path, in input order.

use vstd::prelude::*;
use crate::codec::decode_one;
use crate::outcome::DecodeOutcome;
use rayon::iter::IndexedParallelIterator;
use rayon::iter::IntoParallelRefIterator;
use rayon::iter::ParallelIterator;

verus! {

/// Relies on rayon's par_iter, map and collect_into_vec: runs the single-item
/// decoder over every path on the shared worker pool and collects the results
/// into a vector that is index-aligned with the input, whatever order the
/// workers finish in. Each element is a `decode_one` result, and `decode_one`
/// returns a well-formed outcome whatever is on disk.
#[verifier::external_body]
fn par_decode(paths: &Vec<String>) -> (r: Vec<DecodeOutcome>)
    ensures
        r@.len() == paths@.len(),
        forall|i: int| 0 <= i < r@.len() ==> r@[i].wf(),
{
    let mut out: Vec<DecodeOutcome> = Vec::with_capacity(paths.len());
    paths.par_iter().map(|p| decode_one(p.as_str())).collect_into_vec(&mut out);
    out
}

/// Relies on rayon::ThreadPoolBuilder::num_threads and build_global: sizes
/// the process-wide worker pool. rayon takes the first effective
/// configuration of a process; any later call leaves the pool as it was and
/// reports an error, which the result reflects.
#[verifier::external_body]
pub(crate) fn configure_pool(num_threads: usize) -> (r: bool) {
    rayon::ThreadPoolBuilder::new().num_threads(num_threads).build_global().is_ok()
}

/// Decode the whole batch: one outcome per input path, index-aligned with the
/// inputs regardless of which worker finished first, every success carrying a
/// well-formed image. No item's failure touches any other item. An empty
/// batch yields an empty vector without any pool interaction.
pub fn decode_batch(paths: &Vec<String>) -> (r: Vec<DecodeOutcome>)
    ensures
        r@.len() == paths@.len(),
        forall|i: int| 0 <= i < r@.len() ==> r@[i].wf(),
{
    if paths.len() == 0 {
        Vec::new()
    } else {
        par_decode(paths)
    }
}

} // verus!
