//! An executable model of the poll repository: one row per active poll,
//! keyed by chat, with the row identifier assigned on creation.
//!
//! The contracts here are the repository interface the lifecycle relies on:
//! single-row atomic reads and writes, at most one poll per chat, and
//! first-match lookup semantics.

use vstd::prelude::*;

use crate::models::{clone_voters, same_poll, voters_unique, LunchPoll};

verus! {

/// Durable storage of active polls. At most one poll may exist per chat;
/// every row carries a distinct identifier smaller than `next_id`.
pub struct LunchPollRepository {
    polls: Vec<LunchPoll>,
    next_id: i64,
}

impl View for LunchPollRepository {
    type V = Seq<LunchPoll>;

    closed spec fn view(&self) -> Seq<LunchPoll> {
        self.polls@
    }
}

/// Some row of `polls` belongs to `chat_id`.
pub open spec fn has_poll_for_chat(polls: Seq<LunchPoll>, chat_id: i64) -> bool {
    exists|i: int| 0 <= i < polls.len() && polls[i].chat_id == chat_id
}

/// Some row of `polls` carries the platform poll identifier `poll_id`.
pub open spec fn has_poll_with_poll_id(polls: Seq<LunchPoll>, poll_id: Seq<char>) -> bool {
    exists|i: int| 0 <= i < polls.len() && polls[i].poll_id@ == poll_id
}

/// Some row of `polls` carries the row identifier `id`.
pub open spec fn has_poll_with_id(polls: Seq<LunchPoll>, id: i64) -> bool {
    exists|i: int| 0 <= i < polls.len() && polls[i].id == id
}

/// Well-formedness of a store with rows `polls` and identifier counter
/// `next_id`: distinct row identifiers, at most one row per chat,
/// well-formed voter ledgers, and identifiers assigned from below `next_id`.
pub open spec fn store_inv(polls: Seq<LunchPoll>, next_id: int) -> bool {
    &&& forall|i: int, j: int| 0 <= i < j < polls.len() ==> polls[i].id != polls[j].id
    &&& forall|i: int, j: int| 0 <= i < j < polls.len() ==> polls[i].chat_id != polls[j].chat_id
    &&& forall|i: int| 0 <= i < polls.len() ==> #[trigger] polls[i].wf()
    &&& forall|i: int| 0 <= i < polls.len() ==> 1 <= #[trigger] polls[i].id < next_id
    &&& 1 <= next_id
}

/// Removing a row keeps a store well formed.
proof fn lemma_inv_remove(polls: Seq<LunchPoll>, next_id: int, i: int)
    requires
        store_inv(polls, next_id),
        0 <= i < polls.len(),
    ensures
        store_inv(polls.remove(i), next_id),
{
    let r = polls.remove(i);
    assert forall|a: int| 0 <= a < r.len() implies r[a].wf() && 1 <= #[trigger] r[a].id < next_id by {
        if a < i {
            assert(r[a] == polls[a]);
        } else {
            assert(r[a] == polls[a + 1]);
        }
    }
    assert forall|a: int, b: int| 0 <= a < b < r.len() implies r[a].id != r[b].id && r[a].chat_id
        != r[b].chat_id by {
        let oa = if a < i { a } else { a + 1 };
        let ob = if b < i { b } else { b + 1 };
        assert(r[a] == polls[oa]);
        assert(r[b] == polls[ob]);
    }
}

/// Replacing one row's voter ledger with another well-formed ledger, all
/// other columns and rows untouched, keeps a store well formed.
proof fn lemma_inv_replace(before: Seq<LunchPoll>, after: Seq<LunchPoll>, next_id: int, i: int)
    requires
        store_inv(before, next_id),
        0 <= i < before.len(),
        after.len() == before.len(),
        forall|j: int| 0 <= j < before.len() && j != i ==> after[j] == before[j],
        after[i].id == before[i].id,
        after[i].chat_id == before[i].chat_id,
        voters_unique(after[i].yes_voters@),
    ensures
        store_inv(after, next_id),
{
    assert forall|a: int| 0 <= a < after.len() implies after[a].wf() && 1 <= #[trigger] after[a].id
        < next_id by {
        if a != i {
            assert(after[a] == before[a]);
        }
    }
    assert forall|a: int, b: int| 0 <= a < b < after.len() implies after[a].id != after[b].id
        && after[a].chat_id != after[b].chat_id by {
        assert(a != i ==> after[a] == before[a]);
        assert(b != i ==> after[b] == before[b]);
    }
}

impl LunchPollRepository {
    /// The next row identifier the repository will assign.
    pub closed spec fn next_id_spec(self) -> int {
        self.next_id as int
    }

    /// The whole store is well formed.
    pub open spec fn wf(self) -> bool {
        store_inv(self@, self.next_id_spec())
    }

    /// The repository can still assign a fresh row identifier.
    pub open spec fn can_create(self) -> bool {
        self.next_id_spec() < i64::MAX as int
    }

    /// An empty repository.
    pub fn new() -> (r: LunchPollRepository)
        ensures
            r.wf(),
            r@ == Seq::<LunchPoll>::empty(),
            r.can_create(),
            r.next_id_spec() == 1,
    {
        LunchPollRepository { polls: Vec::new(), next_id: 1 }
    }

    /// Whether a poll is still open for `chat_id`.
    pub fn incomplete_poll_exists(&self, chat_id: i64) -> (r: bool)
        ensures
            r == has_poll_for_chat(self@, chat_id),
    {
        match self.get_poll_by_chat_id(chat_id) {
            Option::Some(_) => true,
            Option::None => false,
        }
    }

    /// The poll for `chat_id`, if one exists: a copy of the first matching
    /// row.
    pub fn get_poll_by_chat_id(&self, chat_id: i64) -> (r: Option<LunchPoll>)
        ensures
            r is None <==> !has_poll_for_chat(self@, chat_id),
            r is Some ==> exists|i: int|
                #![trigger self@[i]]
                0 <= i < self@.len() && same_poll(r->0, self@[i]) && self@[i].chat_id == chat_id,
    {
        let mut i: usize = 0;
        while i < self.polls.len()
            invariant
                i <= self.polls.len(),
                forall|j: int| 0 <= j < i ==> self@[j].chat_id != chat_id,
            decreases self.polls.len() - i,
        {
            if self.polls[i].chat_id == chat_id {
                let p = self.polls[i].duplicate();
                proof {
                    assert(same_poll(p, self@[i as int]) && self@[i as int].chat_id == chat_id);
                }
                return Option::Some(p);
            }
            i = i + 1;
        }
        Option::None
    }

    /// The poll carrying the platform poll identifier `poll_id`, if one
    /// exists: a copy of the first matching row.
    pub fn get_poll_by_poll_id(&self, poll_id: &String) -> (r: Option<LunchPoll>)
        ensures
            r is None <==> !has_poll_with_poll_id(self@, poll_id@),
            r is Some ==> exists|i: int|
                #![trigger self@[i]]
                0 <= i < self@.len() && same_poll(r->0, self@[i]) && self@[i].poll_id@ == poll_id@,
    {
        let mut i: usize = 0;
        while i < self.polls.len()
            invariant
                i <= self.polls.len(),
                forall|j: int| 0 <= j < i ==> self@[j].poll_id@ != poll_id@,
            decreases self.polls.len() - i,
        {
            if self.polls[i].poll_id == *poll_id {
                let p = self.polls[i].duplicate();
                proof {
                    assert(same_poll(p, self@[i as int]) && self@[i as int].poll_id@ == poll_id@);
                }
                return Option::Some(p);
            }
            i = i + 1;
        }
        Option::None
    }

    /// Persists a new poll row for `chat_id` with an empty voter ledger,
    /// returning the row identifier the repository assigned.
    pub fn create_poll(&mut self, poll_id: &String, poll_msg_id: i32, chat_id: i64) -> (r: i64)
        requires
            old(self).wf(),
            old(self).can_create(),
            !has_poll_for_chat(old(self)@, chat_id),
        ensures
            final(self).wf(),
            final(self).can_create() || final(self).next_id_spec() == i64::MAX as int,
            r == old(self).next_id_spec(),
            final(self).next_id_spec() == old(self).next_id_spec() + 1,
            final(self)@.len() == old(self)@.len() + 1,
            forall|i: int| 0 <= i < old(self)@.len() ==> final(self)@[i] == old(self)@[i],
            final(self)@.last().id == r,
            final(self)@.last().chat_id == chat_id,
            final(self)@.last().poll_id@ == poll_id@,
            final(self)@.last().poll_msg_id == poll_msg_id,
            final(self)@.last().yes_voters@ == Seq::<crate::models::Voter>::empty(),
    {
        let id = self.next_id;
        self.next_id = self.next_id + 1;
        let row = LunchPoll {
            id,
            chat_id,
            poll_id: poll_id.clone(),
            poll_msg_id,
            yes_voters: Vec::new(),
        };
        self.polls.push(row);
        proof {
            let s = self@;
            let n = s.len() - 1;
            assert forall|a: int, b: int| 0 <= a < b < s.len() implies s[a].id != s[b].id
                && s[a].chat_id != s[b].chat_id by {
                if b < n {
                    assert(s[a] == old(self)@[a] && s[b] == old(self)@[b]);
                } else {
                    assert(b == n);
                    if a < n {
                        assert(s[a] == old(self)@[a]);
                        assert(s[n].chat_id == chat_id);
                        assert(!has_poll_for_chat(old(self)@, chat_id));
                    }
                }
            }
        }
        id
    }

    /// Deletes the row with identifier `id`; a missing row is a silent
    /// no-op. Deletion is terminal: nothing else changes.
    pub fn delete_poll(&mut self, id: i64)
        requires
            old(self).wf(),
        ensures
            final(self).wf(),
            final(self).next_id_spec() == old(self).next_id_spec(),
            final(self).can_create() == old(self).can_create(),
            if has_poll_with_id(old(self)@, id) {
                exists|i: int|
                    0 <= i < old(self)@.len() && #[trigger] old(self)@[i].id == id && final(self)@
                        == old(self)@.remove(i)
            } else {
                final(self)@ == old(self)@
            },
    {
        let mut i: usize = 0;
        while i < self.polls.len()
            invariant
                i <= self.polls.len(),
                forall|j: int| 0 <= j < i ==> self@[j].id != id,
                self@ == old(self)@,
                self.next_id_spec() == old(self).next_id_spec(),
                old(self).wf(),
            decreases self.polls.len() - i,
        {
            if self.polls[i].id == id {
                self.polls.remove(i);
                proof {
                    lemma_inv_remove(old(self)@, old(self).next_id_spec(), i as int);
                    assert(old(self)@[i as int].id == id);
                }
                return;
            }
            i = i + 1;
        }
    }

    /// Overwrites the voter ledger of the row whose identifier is
    /// `poll.id` with `poll`'s ledger; every other column and row is left
    /// untouched. A missing row is a silent no-op.
    pub fn update_poll_voters(&mut self, poll: &LunchPoll)
        requires
            old(self).wf(),
            poll.wf(),
        ensures
            final(self).wf(),
            final(self).next_id_spec() == old(self).next_id_spec(),
            final(self).can_create() == old(self).can_create(),
            if has_poll_with_id(old(self)@, poll.id) {
                exists|i: int|
                    {
                        &&& 0 <= i < old(self)@.len()
                        &&& #[trigger] old(self)@[i].id == poll.id
                        &&& final(self)@.len() == old(self)@.len()
                        &&& (forall|j: int|
                            0 <= j < old(self)@.len() && j != i ==> final(self)@[j] == old(
                                self,
                            )@[j])
                        &&& final(self)@[i].id == old(self)@[i].id
                        &&& final(self)@[i].chat_id == old(self)@[i].chat_id
                        &&& final(self)@[i].poll_id@ == old(self)@[i].poll_id@
                        &&& final(self)@[i].poll_msg_id == old(self)@[i].poll_msg_id
                        &&& final(self)@[i].yes_voters@ == poll.yes_voters@
                    }
            } else {
                final(self)@ == old(self)@
            },
    {
        let mut i: usize = 0;
        while i < self.polls.len()
            invariant
                i <= self.polls.len(),
                forall|j: int| 0 <= j < i ==> self@[j].id != poll.id,
                self@ == old(self)@,
                self.next_id_spec() == old(self).next_id_spec(),
                old(self).wf(),
                poll.wf(),
            decreases self.polls.len() - i,
        {
            if self.polls[i].id == poll.id {
                let mut row = self.polls.remove(i);
                row.yes_voters = clone_voters(&poll.yes_voters);
                self.polls.insert(i, row);
                proof {
                    let s = self@;
                    let b = old(self)@;
                    assert(s.len() == b.len());
                    assert forall|j: int| 0 <= j < b.len() && j != i as int implies s[j] == b[j] by {
                        if j < i as int {
                            assert(s[j] == b.remove(i as int)[j]);
                        } else {
                            assert(s[j] == b.remove(i as int)[j - 1]);
                        }
                    }
                    lemma_inv_replace(b, s, old(self).next_id_spec(), i as int);
                    assert(b[i as int].id == poll.id);
                }
                return;
            }
            i = i + 1;
        }
    }
}

/// At most one poll exists per chat: in a well-formed repository two rows
/// for the same chat are the same row, so a lookup by chat can never observe
/// more than one poll.
pub proof fn lemma_single_active_poll(repo: LunchPollRepository, chat_id: i64)
    requires
        repo.wf(),
    ensures
        forall|i: int, j: int|
            0 <= i < repo@.len() && 0 <= j < repo@.len() && repo@[i].chat_id == chat_id
                && repo@[j].chat_id == chat_id ==> i == j,
{
}

} // verus!
