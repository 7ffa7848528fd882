//! The result reconciler: walk the ordered outcomes and shape the
//! caller-facing sequence, preserving index alignment in both the tolerant
//! form (one slot per input) and the reporting form (successes and failures
//! in separate lists, each entry keeping its original index).

use vstd::prelude::*;
use crate::outcome::DecodeOutcome;
use crate::outcome::DecodedImage;

verus! {

/// The tolerant shape of one outcome: the image of a success, an absent
/// marker for a failure.
pub open spec fn spec_slot(o: DecodeOutcome) -> Option<DecodedImage> {
    match o {
        DecodeOutcome::Image(img) => Some(img),
        DecodeOutcome::Failure(_) => None,
    }
}

/// The successes among `s`, in order, each paired with its original index.
pub open spec fn images_of(s: Seq<DecodeOutcome>) -> Seq<(int, DecodedImage)>
    decreases s.len(),
{
    if s.len() == 0 {
        Seq::empty()
    } else {
        (match s.last() {
            DecodeOutcome::Image(img) => images_of(s.drop_last()).push((s.len() - 1, img)),
            DecodeOutcome::Failure(_) => images_of(s.drop_last()),
        })
    }
}

/// The failures among `s`, in order, each paired with its original index and
/// its diagnostic message.
pub open spec fn errors_of(s: Seq<DecodeOutcome>) -> Seq<(int, Seq<char>)>
    decreases s.len(),
{
    if s.len() == 0 {
        Seq::empty()
    } else {
        (match s.last() {
            DecodeOutcome::Image(_) => errors_of(s.drop_last()),
            DecodeOutcome::Failure(f) => errors_of(s.drop_last()).push(
                ((s.len() - 1) as int, f.message@),
            ),
        })
    }
}

/// Every outcome of a batch lands in exactly one of the two report lists:
/// the successes and the failures partition the batch, so the reporting
/// form's main sequence is shorter than the input by exactly the number of
/// failures.
pub proof fn lemma_report_partitions(s: Seq<DecodeOutcome>)
    ensures
        images_of(s).len() + errors_of(s).len() == s.len(),
    decreases s.len(),
{
    if s.len() > 0 {
        lemma_report_partitions(s.drop_last());
    }
}

/// Index alignment of the reporting form: every entry of either report list
/// carries an index of the batch it was built from, and each list keeps those
/// indices in strictly increasing input order.
pub proof fn lemma_report_indices(s: Seq<DecodeOutcome>)
    ensures
        forall|j: int| 0 <= j < images_of(s).len() ==> 0 <= (#[trigger] images_of(s)[j]).0
            < s.len(),
        forall|j: int, k: int| 0 <= j < k < images_of(s).len() ==> (#[trigger] images_of(s)[j]).0
            < (#[trigger] images_of(s)[k]).0,
        forall|j: int| 0 <= j < errors_of(s).len() ==> 0 <= (#[trigger] errors_of(s)[j]).0
            < s.len(),
        forall|j: int, k: int| 0 <= j < k < errors_of(s).len() ==> (#[trigger] errors_of(s)[j]).0
            < (#[trigger] errors_of(s)[k]).0,
    decreases s.len(),
{
    if s.len() > 0 {
        let pre = s.drop_last();
        lemma_report_indices(pre);
        assert forall|j: int| 0 <= j < images_of(s).len() implies 0 <= (#[trigger] images_of(
            s,
        )[j]).0 < s.len() by {
            if j < images_of(pre).len() {
                assert(images_of(s)[j] == images_of(pre)[j]);
            }
        }
        assert forall|j: int, k: int| 0 <= j < k < images_of(s).len() implies (
        #[trigger] images_of(s)[j]).0 < (#[trigger] images_of(s)[k]).0 by {
            if k < images_of(pre).len() {
                assert(images_of(s)[j] == images_of(pre)[j]);
                assert(images_of(s)[k] == images_of(pre)[k]);
            } else if j < images_of(pre).len() {
                assert(images_of(s)[j] == images_of(pre)[j]);
                assert(images_of(pre)[j].0 < pre.len());
            }
        }
        assert forall|j: int| 0 <= j < errors_of(s).len() implies 0 <= (#[trigger] errors_of(
            s,
        )[j]).0 < s.len() by {
            if j < errors_of(pre).len() {
                assert(errors_of(s)[j] == errors_of(pre)[j]);
            }
        }
        assert forall|j: int, k: int| 0 <= j < k < errors_of(s).len() implies (
        #[trigger] errors_of(s)[j]).0 < (#[trigger] errors_of(s)[k]).0 by {
            if k < errors_of(pre).len() {
                assert(errors_of(s)[j] == errors_of(pre)[j]);
                assert(errors_of(s)[k] == errors_of(pre)[k]);
            } else if j < errors_of(pre).len() {
                assert(errors_of(s)[j] == errors_of(pre)[j]);
                assert(errors_of(pre)[j].0 < pre.len());
            }
        }
    }
}

/// Appending one outcome extends the report of a prefix by that outcome's
/// entry alone.
proof fn lemma_report_step(s: Seq<DecodeOutcome>, k: int)
    requires
        0 <= k < s.len(),
    ensures
        images_of(s.subrange(0, k + 1)) == (match s[k] {
            DecodeOutcome::Image(img) => images_of(s.subrange(0, k)).push((k, img)),
            DecodeOutcome::Failure(_) => images_of(s.subrange(0, k)),
        }),
        errors_of(s.subrange(0, k + 1)) == (match s[k] {
            DecodeOutcome::Image(_) => errors_of(s.subrange(0, k)),
            DecodeOutcome::Failure(f) => errors_of(s.subrange(0, k)).push((k, f.message@)),
        }),
{
    let t = s.subrange(0, k + 1);
    assert(t.drop_last() =~= s.subrange(0, k));
    assert(t.last() == s[k]);
}

/// Every success a report lists is well-formed when every outcome it was
/// built from is.
pub proof fn lemma_images_wf(s: Seq<DecodeOutcome>)
    requires
        forall|i: int| 0 <= i < s.len() ==> s[i].wf(),
    ensures
        forall|j: int| 0 <= j < images_of(s).len() ==> (#[trigger] images_of(s)[j]).1.wf(),
    decreases s.len(),
{
    if s.len() > 0 {
        assert forall|i: int| 0 <= i < s.drop_last().len() implies (#[trigger] s.drop_last()[i]).wf() by {
            assert(s.drop_last()[i] == s[i]);
        }
        lemma_images_wf(s.drop_last());
        assert forall|j: int| 0 <= j < images_of(s).len() implies (#[trigger] images_of(s)[j]).1.wf() by {
            match s.last() {
                DecodeOutcome::Image(img) => {
                    if j < images_of(s.drop_last()).len() {
                        assert(images_of(s)[j] == images_of(s.drop_last())[j]);
                    } else {
                        assert(images_of(s)[j] == (((s.len() - 1) as int, img)));
                        assert(s[s.len() - 1].wf());
                    }
                },
                DecodeOutcome::Failure(_) => {
                    assert(images_of(s)[j] == images_of(s.drop_last())[j]);
                },
            }
        }
    }
}

/// Every diagnostic a report lists is non-empty when every outcome it was
/// built from is well-formed.
pub proof fn lemma_errors_nonempty(s: Seq<DecodeOutcome>)
    requires
        forall|i: int| 0 <= i < s.len() ==> s[i].wf(),
    ensures
        forall|j: int| 0 <= j < errors_of(s).len() ==> (#[trigger] errors_of(s)[j]).1.len() > 0,
    decreases s.len(),
{
    if s.len() > 0 {
        assert forall|i: int| 0 <= i < s.drop_last().len() implies (#[trigger] s.drop_last()[i]).wf() by {
            assert(s.drop_last()[i] == s[i]);
        }
        lemma_errors_nonempty(s.drop_last());
        assert forall|j: int| 0 <= j < errors_of(s).len() implies (#[trigger] errors_of(s)[j]).1.len()
            > 0 by {
            match s.last() {
                DecodeOutcome::Image(_) => {
                    assert(errors_of(s)[j] == errors_of(s.drop_last())[j]);
                },
                DecodeOutcome::Failure(f) => {
                    if j < errors_of(s.drop_last()).len() {
                        assert(errors_of(s)[j] == errors_of(s.drop_last())[j]);
                    } else {
                        assert(errors_of(s)[j] == (((s.len() - 1) as int, f.message@)));
                        assert(s[s.len() - 1].wf());
                    }
                },
            }
        }
    }
}

/// The reporting form of a finished batch: the successes with their original
/// indices, and the failures with theirs and their diagnostics.
pub struct FinalizeReport {
    pub images: Vec<(usize, DecodedImage)>,
    pub errors: Vec<(usize, String)>,
}

/// Shape the ordered outcomes into the tolerant caller-facing sequence: one
/// slot per outcome, in the same order — the image for a success, an absent
/// marker for a failure. Buffers are moved into the result, never copied.
pub fn finalize(outcomes: Vec<DecodeOutcome>) -> (r: Vec<Option<DecodedImage>>)
    ensures
        r@.len() == outcomes@.len(),
        forall|i: int| 0 <= i < r@.len() ==> r@[i] == spec_slot(outcomes@[i]),
{
    let ghost orig = outcomes@;
    let mut rest = outcomes;
    let mut r: Vec<Option<DecodedImage>> = Vec::new();
    while rest.len() > 0
        invariant
            r@.len() + rest@.len() == orig.len(),
            rest@ == orig.subrange(r@.len() as int, orig.len() as int),
            forall|i: int| 0 <= i < r@.len() ==> r@[i] == spec_slot(orig[i]),
        decreases rest@.len(),
    {
        let ghost k = r@.len() as int;
        let o = rest.remove(0);
        proof {
            assert(o == orig[k]);
            assert(rest@ =~= orig.subrange(k + 1, orig.len() as int));
        }
        match o {
            DecodeOutcome::Image(img) => r.push(Some(img)),
            DecodeOutcome::Failure(_) => r.push(None),
        }
    }
    r
}

/// Shape the ordered outcomes into the reporting form: each success joins
/// `images` with its original index, each failure joins `errors` with its
/// index and diagnostic, both lists in input order. Index alignment is kept
/// through the indices; buffers are moved, never copied.
pub fn finalize_verbose(outcomes: Vec<DecodeOutcome>) -> (r: FinalizeReport)
    ensures
        r.images@.len() == images_of(outcomes@).len(),
        forall|j: int| 0 <= j < r.images@.len() ==> (#[trigger] r.images@[j]).0 as int
            == images_of(outcomes@)[j].0 && r.images@[j].1 == images_of(outcomes@)[j].1,
        r.errors@.len() == errors_of(outcomes@).len(),
        forall|j: int| 0 <= j < r.errors@.len() ==> (#[trigger] r.errors@[j]).0 as int
            == errors_of(outcomes@)[j].0 && r.errors@[j].1@ == errors_of(outcomes@)[j].1,
{
    let ghost orig = outcomes@;
    let mut rest = outcomes;
    let mut images: Vec<(usize, DecodedImage)> = Vec::new();
    let mut errors: Vec<(usize, String)> = Vec::new();
    let mut k: usize = 0;
    // The batch length fits a machine word, so the running index below cannot
    // overflow; the exec call is what puts that bound in scope.
    let total = rest.len();
    proof {
        assert(total == orig.len());
    }
    while rest.len() > 0
        invariant
            orig.len() <= usize::MAX,
            k + rest@.len() == orig.len(),
            rest@ == orig.subrange(k as int, orig.len() as int),
            images@.len() == images_of(orig.subrange(0, k as int)).len(),
            forall|j: int| 0 <= j < images@.len() ==> (#[trigger] images@[j]).0 as int
                == images_of(orig.subrange(0, k as int))[j].0
                && images@[j].1 == images_of(orig.subrange(0, k as int))[j].1,
            errors@.len() == errors_of(orig.subrange(0, k as int)).len(),
            forall|j: int| 0 <= j < errors@.len() ==> (#[trigger] errors@[j]).0 as int
                == errors_of(orig.subrange(0, k as int))[j].0
                && errors@[j].1@ == errors_of(orig.subrange(0, k as int))[j].1,
        decreases rest@.len(),
    {
        let o = rest.remove(0);
        proof {
            assert(o == orig[k as int]);
            assert(rest@ =~= orig.subrange(k as int + 1, orig.len() as int));
            lemma_report_step(orig, k as int);
        }
        match o {
            DecodeOutcome::Image(img) => images.push((k, img)),
            DecodeOutcome::Failure(f) => errors.push((k, f.message)),
        }
        k = k + 1;
    }
    proof {
        assert(orig.subrange(0, orig.len() as int) =~= orig);
    }
    FinalizeReport { images, errors }
}

} // verus!
