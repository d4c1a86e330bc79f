//! Reconciliation of asynchronously delivered answer events with the voter
//! ledger of the poll they belong to.

use vstd::prelude::*;

use crate::db::{has_poll_with_poll_id, LunchPollRepository};
use crate::ledger::{add_if_absent, contains_user_spec, count_user, lemma_add_if_absent_unique};
use crate::models::{display_name_of, same_poll, UserInfo};

verus! {

/// The option index of the affirmative ("yes") answer in the poll.
pub const YES_ANSWER_ID: i32 = 0;

/// An inbound answer event from the messaging platform: which poll it
/// belongs to, which options the user selected, and who answered.
pub struct PollAnswer {
    pub poll_id: String,
    pub option_ids: Vec<i32>,
    pub user: UserInfo,
}

/// The event selects exactly the affirmative option.
pub open spec fn is_affirmative(option_ids: Seq<i32>) -> bool {
    option_ids =~= seq![YES_ANSWER_ID]
}

/// What became of one answer event.
#[derive(Clone, Copy, Debug, PartialEq, Eq, Structural)]
pub enum AnswerOutcome {
    /// No stored poll matches the event's poll identifier: the event is
    /// discarded, nothing changes, and no error is surfaced to any user.
    UnknownPoll,
    /// The event is not an affirmative answer: discarded, nothing changes.
    NotAffirmative,
    /// A new voter was appended to the poll's ledger and the row persisted.
    VoterAdded,
    /// The voter was already on the ledger: re-delivery changes nothing and
    /// no write is issued.
    AlreadyVoted,
}

/// Applies one answer event to the store: looks the poll up by the event's
/// poll identifier, discards events for unknown polls and non-affirmative
/// answers, and otherwise appends the answering user to the ledger iff no
/// entry with the same identity is present, persisting only on insertion.
pub fn process_poll_answer(repo: &mut LunchPollRepository, answer: &PollAnswer) -> (r:
    AnswerOutcome)
    requires
        old(repo).wf(),
    ensures
        final(repo).wf(),
        final(repo).next_id_spec() == old(repo).next_id_spec(),
        final(repo).can_create() == old(repo).can_create(),
        !has_poll_with_poll_id(old(repo)@, answer.poll_id@) ==> r == AnswerOutcome::UnknownPoll
            && final(repo)@ == old(repo)@,
        has_poll_with_poll_id(old(repo)@, answer.poll_id@) && !is_affirmative(answer.option_ids@)
            ==> r == AnswerOutcome::NotAffirmative && final(repo)@ == old(repo)@,
        has_poll_with_poll_id(old(repo)@, answer.poll_id@) && is_affirmative(answer.option_ids@)
            ==> exists|i: int|
            #![trigger old(repo)@[i]]
            {
                &&& 0 <= i < old(repo)@.len()
                &&& old(repo)@[i].poll_id@ == answer.poll_id@
                &&& if contains_user_spec(old(repo)@[i].yes_voters@, answer.user.id) {
                    r == AnswerOutcome::AlreadyVoted && final(repo)@ == old(repo)@
                } else {
                    &&& r == AnswerOutcome::VoterAdded
                    &&& final(repo)@.len() == old(repo)@.len()
                    &&& (forall|j: int|
                        0 <= j < old(repo)@.len() && j != i ==> final(repo)@[j] == old(repo)@[j])
                    &&& final(repo)@[i].id == old(repo)@[i].id
                    &&& final(repo)@[i].chat_id == old(repo)@[i].chat_id
                    &&& final(repo)@[i].poll_id@ == old(repo)@[i].poll_id@
                    &&& final(repo)@[i].poll_msg_id == old(repo)@[i].poll_msg_id
                    &&& final(repo)@[i].yes_voters@.len() == old(repo)@[i].yes_voters@.len() + 1
                    &&& (forall|k: int|
                        0 <= k < old(repo)@[i].yes_voters@.len()
                            ==> final(repo)@[i].yes_voters@[k] == old(repo)@[i].yes_voters@[k])
                    &&& final(repo)@[i].yes_voters@.last().user_id == answer.user.id
                    &&& final(repo)@[i].yes_voters@.last().display_name@ == display_name_of(
                        answer.user,
                    )
                    &&& count_user(final(repo)@[i].yes_voters@, answer.user.id) == 1
                }
            },
{
    let found = repo.get_poll_by_poll_id(&answer.poll_id);
    match found {
        Option::None => AnswerOutcome::UnknownPoll,
        Option::Some(mut poll) => {
            let ghost poll0 = poll;
            let ghost gi = choose|i: int|
                0 <= i < repo@.len() && #[trigger] same_poll(poll0, repo@[i]) && repo@[i].poll_id@
                    == answer.poll_id@;
            proof {
                assert(exists|i: int|
                    0 <= i < repo@.len() && #[trigger] same_poll(poll0, repo@[i])
                        && repo@[i].poll_id@ == answer.poll_id@);
                assert(0 <= gi < repo@.len() && same_poll(poll0, repo@[gi]));
                assert(repo@[gi].wf());
            }
            if !(answer.option_ids.len() == 1 && answer.option_ids[0] == YES_ANSWER_ID) {
                proof {
                    assert(!is_affirmative(answer.option_ids@));
                }
                return AnswerOutcome::NotAffirmative;
            }
            let new_voter = answer.user.to_voter();
            let ghost candidate = new_voter;
            let inserted = add_if_absent(&mut poll.yes_voters, new_voter);
            proof {
                lemma_add_if_absent_unique(old(repo)@[gi].yes_voters@, candidate);
            }
            if inserted {
                repo.update_poll_voters(&poll);
                proof {
                    let s = repo@;
                    let b = old(repo)@;
                    let j = choose|j: int|
                        {
                            &&& 0 <= j < b.len()
                            &&& #[trigger] b[j].id == poll.id
                            &&& s.len() == b.len()
                            &&& (forall|k: int| 0 <= k < b.len() && k != j ==> s[k] == b[k])
                            &&& s[j].id == b[j].id
                            &&& s[j].chat_id == b[j].chat_id
                            &&& s[j].poll_id@ == b[j].poll_id@
                            &&& s[j].poll_msg_id == b[j].poll_msg_id
                            &&& s[j].yes_voters@ == poll.yes_voters@
                        };
                    assert(b[gi].id == poll.id);
                    assert(j == gi);
                }
                AnswerOutcome::VoterAdded
            } else {
                AnswerOutcome::AlreadyVoted
            }
        },
    }
}

} // verus!
