//! The priority shuffler: a random permutation of the voter list, produced
//! on a copy so the stored ledger order is never mutated.
//!
//! The random source is the one outside ingredient; the permutation itself
//! is built and proved here: whatever indices the source yields, the result
//! carries exactly the elements of the input.

use vstd::prelude::*;
use vstd::multiset::Multiset;

use rand::Rng;

use crate::models::Voter;

verus! {

broadcast use vstd::seq_lib::group_to_multiset_ensures, vstd::multiset::group_multiset_axioms;

/// Relies on `rand::Rng::gen_range` over `rand::thread_rng`: a value drawn
/// from the half-open range below `n`, so strictly smaller than `n`. The
/// call panics only on an empty range, which the precondition rules out.
#[verifier::external_body]
fn random_below(n: usize) -> (r: usize)
    requires
        n > 0,
    ensures
        r < n,
{
    rand::thread_rng().gen_range(0..n)
}

/// A random permutation of `voters`: repeatedly draws one element at a
/// random position out of what is left and appends it to the result. The
/// result always carries exactly the elements of the input, whatever the
/// random source yields; for an empty input it is empty.
pub fn shuffle(voters: Vec<Voter>) -> (r: Vec<Voter>)
    ensures
        r@.to_multiset() == voters@.to_multiset(),
        r@.len() == voters@.len(),
{
    let ghost orig = voters@;
    let mut rest = voters;
    let mut out: Vec<Voter> = Vec::new();
    while rest.len() > 0
        invariant
            out@.to_multiset().add(rest@.to_multiset()) == orig.to_multiset(),
            out@.len() + rest@.len() == orig.len(),
        decreases rest.len(),
    {
        let i = random_below(rest.len());
        let ghost before_out = out@;
        let ghost before_rest = rest@;
        let picked = rest.remove(i);
        out.push(picked);
        proof {
            assert(rest@.to_multiset() == before_rest.to_multiset().remove(picked));
            assert(out@.to_multiset() == before_out.to_multiset().insert(picked));
            assert(before_rest.to_multiset().count(picked) > 0) by {
                assert(before_rest.contains(picked));
            }
            assert(out@.to_multiset().add(rest@.to_multiset()) =~= before_out.to_multiset().add(
                before_rest.to_multiset(),
            ));
        }
    }
    proof {
        assert(rest@ =~= Seq::<Voter>::empty());
        assert(rest@.to_multiset() =~= Multiset::<Voter>::empty());
        assert(out@.to_multiset() =~= orig.to_multiset());
    }
    out
}

} // verus!
