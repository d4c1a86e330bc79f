//! The poll lifecycle transitions driven by user commands: open a poll,
//! finalize the vote with a randomized priority announcement, or cancel it.
//!
//! Each transition takes the platform's replies as arguments and is proved
//! for every reply the platform could give; the surrounding transport layer
//! performs the actual requests and hands the results in.

use vstd::prelude::*;
use vstd::string::StringExecFns;

use crate::db::{has_poll_for_chat, LunchPollRepository};
use crate::error_handling::PlatformError;
use crate::message_handlers::{command_name_spec, Command};
use crate::models::{clone_voters, same_poll, Voter};
use crate::render::{render_announcement, spec_announcement};
use crate::shuffle::shuffle;

verus! {

/// The create-poll request the open transition issues: a fixed yes/no
/// question, non-anonymous so answers are individually attributable.
pub struct CreatePollRequest {
    pub question: String,
    pub options: Vec<String>,
    pub is_anonymous: bool,
}

/// The request sent to the platform when a new poll is opened: the fixed
/// question, the affirmative option first, and attribution switched on.
pub fn create_poll_request() -> (r: CreatePollRequest)
    ensures
        r.question@ == "Обід?"@,
        r.options@.len() == 2,
        r.options@[0]@ == "Так"@,
        r.options@[1]@ == "Ні"@,
        !r.is_anonymous,
{
    let mut options: Vec<String> = Vec::new();
    options.push(String::from_str("Так"));
    options.push(String::from_str("Ні"));
    CreatePollRequest { question: String::from_str("Обід?"), options, is_anonymous: false }
}

/// What the platform answered to a create-poll request: the identifier of
/// the created poll object and of the message carrying it.
pub struct CreatedPoll {
    pub poll_id: String,
    pub poll_msg_id: i32,
}

/// The notice shown when a poll is requested while one is already open.
pub fn finish_current_text() -> (r: String)
    ensures
        r@ == "Будь ласка, завершіть поточне голосування."@,
{
    String::from_str("Будь ласка, завершіть поточне голосування.")
}

/// The notice shown when finalize or cancel finds no poll to act on: it
/// names the command that opens one.
pub open spec fn create_poll_first_spec() -> Seq<char> {
    "Створіть нове опитування, використовуючи команду /"@ + command_name_spec(Command::Lunch)
        + "."@
}

/// The notice shown when finalize or cancel finds no poll to act on.
pub fn create_poll_first_text() -> (r: String)
    ensures
        r@ == create_poll_first_spec(),
{
    let mut s = String::from_str("Створіть нове опитування, використовуючи команду /");
    let name = Command::Lunch.name();
    s.append(name.as_str());
    s.append(".");
    s
}

/// The announcement sent when the vote closes with no affirmative voters.
pub fn no_one_wants_text() -> (r: String)
    ensures
        r@ == "Ніхто не хоче обідати."@,
{
    String::from_str("Ніхто не хоче обідати.")
}

/// The acknowledgment sent after a vote is cancelled.
pub fn cancel_ack_text() -> (r: String)
    ensures
        r@ == "Охрана, отмєна."@,
{
    String::from_str("Охрана, отмєна.")
}

/// The only failure class of the platform's stop-poll call that finalize
/// tolerates: the live poll object is absent. The stored record is the
/// source of truth, so the transition proceeds past it.
pub open spec fn is_tolerated_stop_error_spec(e: PlatformError) -> bool {
    e is PollAbsent
}

/// Whether a stop-poll failure is tolerated (the live poll object is
/// absent) rather than aborting the transition.
pub fn is_tolerated_stop_error(e: &PlatformError) -> (r: bool)
    ensures
        r == is_tolerated_stop_error_spec(*e),
{
    match e {
        PlatformError::PollAbsent => true,
        PlatformError::Other => false,
    }
}

/// What the open transition produced.
#[derive(Clone, Copy, Debug, PartialEq, Eq, Structural)]
pub enum LunchOutcome {
    /// A poll is already open for the chat: the user is told to finish the
    /// current vote first, and nothing else happens.
    FinishCurrentFirst,
    /// The platform created the poll and the row was persisted with an
    /// empty voter ledger.
    PollCreated,
    /// The platform rejected the create-poll request: nothing is persisted.
    CreateFailed(PlatformError),
}

/// The open transition: starts a new poll for `chat_id` unless one is
/// already open. `create_result` is the platform's reply to the create-poll
/// request; it is consulted only when the transition actually asks for a
/// poll, and a failed request leaves no partial state behind.
pub fn lunch_cmd(
    repo: &mut LunchPollRepository,
    chat_id: i64,
    create_result: Result<CreatedPoll, PlatformError>,
) -> (r: LunchOutcome)
    requires
        old(repo).wf(),
        old(repo).can_create(),
    ensures
        final(repo).wf(),
        has_poll_for_chat(old(repo)@, chat_id) ==> r == LunchOutcome::FinishCurrentFirst
            && final(repo)@ == old(repo)@
            && final(repo).next_id_spec() == old(repo).next_id_spec(),
        !has_poll_for_chat(old(repo)@, chat_id) && create_result is Err ==> r
            == LunchOutcome::CreateFailed(create_result->Err_0) && final(repo)@ == old(repo)@
            && final(repo).next_id_spec() == old(repo).next_id_spec(),
        !has_poll_for_chat(old(repo)@, chat_id) && create_result is Ok ==> {
            &&& r == LunchOutcome::PollCreated
            &&& final(repo)@.len() == old(repo)@.len() + 1
            &&& (forall|i: int|
                0 <= i < old(repo)@.len() ==> final(repo)@[i] == old(repo)@[i])
            &&& final(repo)@.last().chat_id == chat_id
            &&& final(repo)@.last().poll_id@ == create_result->Ok_0.poll_id@
            &&& final(repo)@.last().poll_msg_id == create_result->Ok_0.poll_msg_id
            &&& final(repo)@.last().yes_voters@ == Seq::<Voter>::empty()
            &&& final(repo).next_id_spec() == old(repo).next_id_spec() + 1
        },
{
    match repo.get_poll_by_chat_id(chat_id) {
        Option::Some(_) => LunchOutcome::FinishCurrentFirst,
        Option::None => match create_result {
            Result::Ok(created) => {
                repo.create_poll(&created.poll_id, created.poll_msg_id, chat_id);
                LunchOutcome::PollCreated
            },
            Result::Err(e) => LunchOutcome::CreateFailed(e),
        },
    }
}

/// What the finalize transition produced.
#[derive(Clone, Debug, PartialEq, Eq)]
pub enum GoOutcome {
    /// No poll is open for the chat: the user is told to create one first.
    NoPoll,
    /// A platform request failed (a non-tolerated stop-poll failure, or the
    /// announcement could not be sent): the transition aborts and the poll
    /// row stays intact, safe for a retry.
    Aborted(PlatformError),
    /// No one voted yes: the empty-vote notice went out and the row was
    /// deleted.
    AnnouncedEmpty,
    /// The priority announcement went out and the row was deleted; the text
    /// lists the voters in the randomized order.
    Announced(String),
}

/// The finalize transition: closes the vote for `chat_id` and announces the
/// randomized priority order of the affirmative voters.
///
/// `stop_result` is the platform's reply to stopping the poll message;
/// a stop failure is tolerated exactly when the live poll object is absent.
/// `send_result` is the platform's reply to the announcement message. The
/// row is deleted only after the announcement is accepted; on any abort the
/// row stays as it was.
pub fn go_cmd(
    repo: &mut LunchPollRepository,
    chat_id: i64,
    stop_result: Result<(), PlatformError>,
    send_result: Result<(), PlatformError>,
) -> (r: GoOutcome)
    requires
        old(repo).wf(),
    ensures
        final(repo).wf(),
        final(repo).next_id_spec() == old(repo).next_id_spec(),
        final(repo).can_create() == old(repo).can_create(),
        !has_poll_for_chat(old(repo)@, chat_id) ==> r == GoOutcome::NoPoll
            && final(repo)@ == old(repo)@,
        has_poll_for_chat(old(repo)@, chat_id) ==> exists|i: int|
            #![trigger old(repo)@[i]]
            {
                &&& 0 <= i < old(repo)@.len()
                &&& old(repo)@[i].chat_id == chat_id
                &&& if stop_result is Err && !is_tolerated_stop_error_spec(stop_result->Err_0) {
                    r == GoOutcome::Aborted(stop_result->Err_0) && final(repo)@ == old(repo)@
                } else if send_result is Err {
                    r == GoOutcome::Aborted(send_result->Err_0) && final(repo)@ == old(repo)@
                } else if old(repo)@[i].yes_voters@.len() == 0 {
                    r == GoOutcome::AnnouncedEmpty && final(repo)@ == old(repo)@.remove(i)
                } else {
                    &&& final(repo)@ == old(repo)@.remove(i)
                    &&& r matches GoOutcome::Announced(text) && exists|order: Seq<Voter>|
                        order.to_multiset() == old(repo)@[i].yes_voters@.to_multiset() && text@
                            == spec_announcement(order)
                }
            },
{
    let found = repo.get_poll_by_chat_id(chat_id);
    match found {
        Option::None => GoOutcome::NoPoll,
        Option::Some(poll) => {
            let ghost gi = choose|i: int|
                0 <= i < repo@.len() && #[trigger] same_poll(poll, repo@[i]) && repo@[i].chat_id
                    == chat_id;
            proof {
                assert(0 <= gi < repo@.len() && same_poll(poll, repo@[gi]));
            }
            if let Result::Err(e) = stop_result {
                if !is_tolerated_stop_error(&e) {
                    return GoOutcome::Aborted(e);
                }
            }
            if poll.yes_voters.len() == 0 {
                match send_result {
                    Result::Err(e) => GoOutcome::Aborted(e),
                    Result::Ok(_) => {
                        delete_found_row(repo, poll.id, Ghost(gi));
                        GoOutcome::AnnouncedEmpty
                    },
                }
            } else {
                let order = shuffle(clone_voters(&poll.yes_voters));
                let text = render_announcement(&order);
                match send_result {
                    Result::Err(e) => GoOutcome::Aborted(e),
                    Result::Ok(_) => {
                        delete_found_row(repo, poll.id, Ghost(gi));
                        proof {
                            assert(order@.to_multiset() == old(repo)@[gi].yes_voters@.to_multiset());
                        }
                        GoOutcome::Announced(text)
                    },
                }
            }
        },
    }
}

/// Deletes the row at the known index `gi`, whose identifier is `id`:
/// a helper shared by the finalize and cancel transitions to pin down which
/// row the repository removes.
fn delete_found_row(repo: &mut LunchPollRepository, id: i64, gi: Ghost<int>)
    requires
        old(repo).wf(),
        0 <= gi@ < old(repo)@.len(),
        old(repo)@[gi@].id == id,
    ensures
        final(repo).wf(),
        final(repo).next_id_spec() == old(repo).next_id_spec(),
        final(repo).can_create() == old(repo).can_create(),
        final(repo)@ == old(repo)@.remove(gi@),
{
    repo.delete_poll(id);
    proof {
        assert(crate::db::has_poll_with_id(old(repo)@, id)) by {
            assert(old(repo)@[gi@].id == id);
        }
        let j = choose|j: int|
            0 <= j < old(repo)@.len() && #[trigger] old(repo)@[j].id == id
                && repo@ == old(repo)@.remove(j);
        assert(j == gi@);
    }
}

/// What the cancel transition produced.
#[derive(Clone, Copy, Debug, PartialEq, Eq, Structural)]
pub enum CancelOutcome {
    /// No poll is open for the chat: the user is told to create one first.
    NoPoll,
    /// The poll row was deleted and the acknowledgment went out.
    Cancelled,
    /// The poll row was deleted but the acknowledgment could not be sent;
    /// the error surfaces after the deletion took effect.
    AckFailed(PlatformError),
}

/// The cancel transition: abandons the current vote for `chat_id`. The
/// platform is asked to stop the live poll on a best-effort basis before
/// this runs — any failure of that request is swallowed, so its result does
/// not appear here. `send_result` is the platform's reply to the
/// acknowledgment message, sent after the row is deleted.
pub fn cancel_cmd(
    repo: &mut LunchPollRepository,
    chat_id: i64,
    send_result: Result<(), PlatformError>,
) -> (r: CancelOutcome)
    requires
        old(repo).wf(),
    ensures
        final(repo).wf(),
        final(repo).next_id_spec() == old(repo).next_id_spec(),
        final(repo).can_create() == old(repo).can_create(),
        !has_poll_for_chat(old(repo)@, chat_id) ==> r == CancelOutcome::NoPoll && final(repo)@
            == old(repo)@,
        has_poll_for_chat(old(repo)@, chat_id) ==> exists|i: int|
            #![trigger old(repo)@[i]]
            {
                &&& 0 <= i < old(repo)@.len()
                &&& old(repo)@[i].chat_id == chat_id
                &&& final(repo)@ == old(repo)@.remove(i)
                &&& send_result is Ok ==> r == CancelOutcome::Cancelled
                &&& send_result is Err ==> r == CancelOutcome::AckFailed(send_result->Err_0)
            },
{
    let found = repo.get_poll_by_chat_id(chat_id);
    match found {
        Option::None => CancelOutcome::NoPoll,
        Option::Some(poll) => {
            let ghost gi = choose|i: int|
                0 <= i < repo@.len() && #[trigger] same_poll(poll, repo@[i]) && repo@[i].chat_id
                    == chat_id;
            proof {
                assert(0 <= gi < repo@.len() && same_poll(poll, repo@[gi]));
            }
            delete_found_row(repo, poll.id, Ghost(gi));
            match send_result {
                Result::Ok(_) => CancelOutcome::Cancelled,
                Result::Err(e) => CancelOutcome::AckFailed(e),
            }
        },
    }
}

} // verus!
