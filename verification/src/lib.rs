//! Batch image loading: resolve each path's format, decode every file into a
//! normalized interleaved RGB buffer on a shared worker pool, and hand back one
//! outcome per input path, in input order, with per-item failures kept as data.

pub mod batch;
pub mod codec;
pub mod format;
pub mod outcome;
pub mod reconcile;

use vstd::prelude::*;
use crate::batch::configure_pool;
use crate::batch::decode_batch;
use crate::outcome::DecodedImage;
use crate::reconcile::FinalizeReport;
use crate::reconcile::finalize;
use crate::reconcile::finalize_verbose;
use crate::reconcile::lemma_errors_nonempty;
use crate::reconcile::lemma_images_wf;
use crate::reconcile::lemma_report_indices;
use crate::reconcile::lemma_report_partitions;
use crate::reconcile::spec_slot;

verus! {

/// The primary entry point: decode every path and return the tolerant
/// sequence — exactly one slot per input, the normalized RGB image where the
/// decode succeeded and an absent marker where it failed. A per-item failure
/// never raises.
///
/// `num_threads`, when given, sizes the shared worker pool. The pool accepts
/// one effective configuration per process; on every later request the new
/// size is ignored and the pool keeps its first one — the tolerant policy,
/// applied consistently.
pub fn read(paths: &Vec<String>, num_threads: Option<usize>) -> (r: Vec<Option<DecodedImage>>)
    ensures
        r@.len() == paths@.len(),
        forall|i: int| 0 <= i < r@.len() ==> ((#[trigger] r@[i]) matches Some(img) ==> img.wf()),
{
    if let Some(n) = num_threads {
        let _first_configuration = configure_pool(n);
    }
    let outcomes = decode_batch(paths);
    let ghost os = outcomes@;
    let r = finalize(outcomes);
    proof {
        assert forall|i: int| 0 <= i < r@.len() implies ((#[trigger] r@[i]) matches Some(img)
            ==> img.wf()) by {
            assert(r@[i] == spec_slot(os[i]));
            assert(os[i].wf());
        }
    }
    r
}

/// The reporting entry point: decode every path and return the successes,
/// each with its original index, beside the failures, each with its index and
/// diagnostic. The two lists partition the batch, so the successes alone are
/// shorter than the input by exactly the number of failures, each list keeps
/// its entries ordered by their original index, and every listed diagnostic
/// is non-empty.
pub fn decode_batch_verbose(paths: &Vec<String>) -> (r: FinalizeReport)
    ensures
        r.images@.len() + r.errors@.len() == paths@.len(),
        forall|j: int| 0 <= j < r.images@.len() ==> (#[trigger] r.images@[j]).1.wf(),
        forall|j: int| 0 <= j < r.errors@.len() ==> (#[trigger] r.errors@[j]).1@.len() > 0,
        forall|j: int| 0 <= j < r.images@.len() ==> (#[trigger] r.images@[j]).0 < paths@.len(),
        forall|j: int, k: int| 0 <= j < k < r.images@.len() ==> (#[trigger] r.images@[j]).0
            < (#[trigger] r.images@[k]).0,
        forall|j: int| 0 <= j < r.errors@.len() ==> (#[trigger] r.errors@[j]).0 < paths@.len(),
        forall|j: int, k: int| 0 <= j < k < r.errors@.len() ==> (#[trigger] r.errors@[j]).0
            < (#[trigger] r.errors@[k]).0,
{
    let outcomes = decode_batch(paths);
    let ghost os = outcomes@;
    let r = finalize_verbose(outcomes);
    proof {
        lemma_report_partitions(os);
        lemma_images_wf(os);
        lemma_errors_nonempty(os);
        lemma_report_indices(os);
    }
    r
}

} // verus!
