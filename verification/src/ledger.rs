//! The voter ledger: appends a voter only when no entry with the same
//! identity is present, keeping first-seen order.

use vstd::prelude::*;

use crate::models::{voters_unique, Voter};

verus! {

/// Some entry of `vs` carries the identity `uid`.
pub open spec fn contains_user_spec(vs: Seq<Voter>, uid: u64) -> bool {
    exists|i: int| 0 <= i < vs.len() && vs[i].user_id == uid
}

/// What [`add_if_absent`] produces: the ledger unchanged when the candidate's
/// identity is already present, otherwise the candidate appended at the tail.
pub open spec fn add_if_absent_spec(vs: Seq<Voter>, candidate: Voter) -> Seq<Voter> {
    if contains_user_spec(vs, candidate.user_id) {
        vs
    } else {
        vs.push(candidate)
    }
}

/// How many entries of `vs` carry the identity `uid`.
pub open spec fn count_user(vs: Seq<Voter>, uid: u64) -> nat
    decreases vs.len(),
{
    if vs.len() == 0 {
        0
    } else {
        count_user(vs.drop_last(), uid) + if vs.last().user_id == uid {
            1nat
        } else {
            0nat
        }
    }
}

/// Whether some entry of `voters` carries the identity `uid`.
pub fn contains_user(voters: &Vec<Voter>, uid: u64) -> (r: bool)
    ensures
        r == contains_user_spec(voters@, uid),
{
    let mut i: usize = 0;
    while i < voters.len()
        invariant
            i <= voters.len(),
            forall|j: int| 0 <= j < i ==> voters@[j].user_id != uid,
        decreases voters.len() - i,
    {
        if voters[i].user_id == uid {
            return true;
        }
        i = i + 1;
    }
    false
}

/// Inserts `candidate` at the tail of the ledger iff no existing entry shares
/// its `user_id`; otherwise leaves the ledger unchanged. Returns whether an
/// insertion happened.
pub fn add_if_absent(voters: &mut Vec<Voter>, candidate: Voter) -> (inserted: bool)
    ensures
        final(voters)@ == add_if_absent_spec(old(voters)@, candidate),
        inserted == !contains_user_spec(old(voters)@, candidate.user_id),
{
    if contains_user(voters, candidate.user_id) {
        false
    } else {
        voters.push(candidate);
        true
    }
}

/// A ledger with no entry for `uid` counts `uid` zero times, and conversely.
pub proof fn lemma_count_zero_iff_absent(vs: Seq<Voter>, uid: u64)
    ensures
        count_user(vs, uid) == 0 <==> !contains_user_spec(vs, uid),
    decreases vs.len(),
{
    if vs.len() > 0 {
        lemma_count_zero_iff_absent(vs.drop_last(), uid);
        assert(contains_user_spec(vs, uid) <==> (contains_user_spec(vs.drop_last(), uid)
            || vs.last().user_id == uid)) by {
            if contains_user_spec(vs.drop_last(), uid) {
                let i = choose|i: int|
                    0 <= i < vs.drop_last().len() && vs.drop_last()[i].user_id == uid;
                assert(vs[i].user_id == uid);
            }
            if contains_user_spec(vs, uid) {
                let i = choose|i: int| 0 <= i < vs.len() && vs[i].user_id == uid;
                if i < vs.len() - 1 {
                    assert(vs.drop_last()[i].user_id == uid);
                }
            }
        }
    }
}

/// In a well-formed ledger every identity appears at most once.
pub proof fn lemma_unique_count_le_one(vs: Seq<Voter>, uid: u64)
    requires
        voters_unique(vs),
    ensures
        count_user(vs, uid) <= 1,
    decreases vs.len(),
{
    if vs.len() > 0 {
        assert(voters_unique(vs.drop_last())) by {
            assert(forall|i: int, j: int|
                0 <= i < j < vs.drop_last().len() ==> vs.drop_last()[i] == vs[i]
                    && vs.drop_last()[j] == vs[j]);
        }
        lemma_unique_count_le_one(vs.drop_last(), uid);
        if vs.last().user_id == uid {
            assert(!contains_user_spec(vs.drop_last(), uid)) by {
                if contains_user_spec(vs.drop_last(), uid) {
                    let i = choose|i: int|
                        0 <= i < vs.drop_last().len() && vs.drop_last()[i].user_id == uid;
                    assert(vs[i].user_id == vs[vs.len() - 1].user_id);
                }
            }
            lemma_count_zero_iff_absent(vs.drop_last(), uid);
        }
    }
}

/// Appending through the dedup rule keeps the ledger well formed, leaves the
/// candidate's identity with exactly one entry, and leaves the count of every
/// other identity as it was.
pub proof fn lemma_add_if_absent_unique(vs: Seq<Voter>, candidate: Voter)
    requires
        voters_unique(vs),
    ensures
        voters_unique(add_if_absent_spec(vs, candidate)),
        count_user(add_if_absent_spec(vs, candidate), candidate.user_id) == 1,
        forall|u: u64|
            u != candidate.user_id ==> count_user(add_if_absent_spec(vs, candidate), u)
                == count_user(vs, u),
{
    let r = add_if_absent_spec(vs, candidate);
    if contains_user_spec(vs, candidate.user_id) {
        lemma_unique_count_le_one(vs, candidate.user_id);
        lemma_count_zero_iff_absent(vs, candidate.user_id);
    } else {
        assert(r == vs.push(candidate));
        assert(voters_unique(r)) by {
            assert(forall|i: int| 0 <= i < vs.len() ==> r[i] == vs[i]);
            assert(r[vs.len() as int] == candidate);
        }
        assert(r.drop_last() =~= vs);
        lemma_count_zero_iff_absent(vs, candidate.user_id);
        assert(count_user(r, candidate.user_id) == count_user(vs, candidate.user_id) + 1);
    }
}

/// The ledger after a whole sequence of candidates has been offered to the
/// dedup rule, first to last.
pub open spec fn apply_all(vs: Seq<Voter>, candidates: Seq<Voter>) -> Seq<Voter>
    decreases candidates.len(),
{
    if candidates.len() == 0 {
        vs
    } else {
        apply_all(add_if_absent_spec(vs, candidates.first()), candidates.drop_first())
    }
}

/// Uniqueness under any arrival history: offering any sequence of candidates
/// to a well-formed ledger keeps it well formed, and an identity carried by
/// the ledger or by some candidate ends with exactly one entry, however often
/// it repeats and in whatever order the candidates arrive.
pub proof fn lemma_uniqueness(vs: Seq<Voter>, candidates: Seq<Voter>, uid: u64)
    requires
        voters_unique(vs),
    ensures
        voters_unique(apply_all(vs, candidates)),
        contains_user_spec(vs, uid) || (exists|i: int|
            0 <= i < candidates.len() && candidates[i].user_id == uid) ==> count_user(
            apply_all(vs, candidates),
            uid,
        ) == 1,
    decreases candidates.len(),
{
    if candidates.len() == 0 {
        if contains_user_spec(vs, uid) {
            lemma_unique_count_le_one(vs, uid);
            lemma_count_zero_iff_absent(vs, uid);
        }
    } else {
        let c = candidates.first();
        let vs1 = add_if_absent_spec(vs, c);
        lemma_add_if_absent_unique(vs, c);
        lemma_uniqueness(vs1, candidates.drop_first(), uid);
        if contains_user_spec(vs, uid) || (exists|i: int|
            0 <= i < candidates.len() && candidates[i].user_id == uid) {
            if c.user_id == uid {
                lemma_count_zero_iff_absent(vs1, uid);
                assert(contains_user_spec(vs1, uid));
            } else if contains_user_spec(vs, uid) {
                assert(contains_user_spec(vs1, uid)) by {
                    let i = choose|i: int| 0 <= i < vs.len() && vs[i].user_id == uid;
                    assert(vs1[i].user_id == uid);
                }
            } else {
                let i = choose|i: int| 0 <= i < candidates.len() && candidates[i].user_id == uid;
                assert(candidates.drop_first()[i - 1].user_id == uid);
            }
        }
    }
}

/// Idempotence of reconciliation at the ledger level: offering the same
/// candidate twice leaves exactly the ledger that offering it once leaves.
pub proof fn lemma_add_if_absent_idempotent(vs: Seq<Voter>, candidate: Voter)
    ensures
        add_if_absent_spec(add_if_absent_spec(vs, candidate), candidate) == add_if_absent_spec(
            vs,
            candidate,
        ),
{
    let r = add_if_absent_spec(vs, candidate);
    assert(contains_user_spec(r, candidate.user_id)) by {
        if contains_user_spec(vs, candidate.user_id) {
            let i = choose|i: int| 0 <= i < vs.len() && vs[i].user_id == candidate.user_id;
            assert(r[i].user_id == candidate.user_id);
        } else {
            assert(r[vs.len() as int].user_id == candidate.user_id);
        }
    }
}

} // verus!
