use lunch_bot::command_handlers::lunch_cmd;
use lunch_bot::command_handlers::CreatedPoll;
use lunch_bot::db::LunchPollRepository;
use lunch_bot::error_handling::PlatformError;
use lunch_bot::ledger::add_if_absent;
use lunch_bot::models::{UserInfo, Voter};
use lunch_bot::poll_handlers::{process_poll_answer, AnswerOutcome, PollAnswer};

fn repo_with_poll(chat_id: i64, poll_id: &str) -> LunchPollRepository {
    let mut repo = LunchPollRepository::new();
    let reply: Result<CreatedPoll, PlatformError> =
        Ok(CreatedPoll { poll_id: poll_id.to_string(), poll_msg_id: 100 });
    lunch_cmd(&mut repo, chat_id, reply);
    repo
}

fn answer(poll_id: &str, option_ids: Vec<i32>, u: UserInfo) -> PollAnswer {
    PollAnswer { poll_id: poll_id.to_string(), option_ids, user: u }
}

fn user(id: u64, username: Option<&str>, first: &str, last: Option<&str>) -> UserInfo {
    UserInfo {
        id,
        username: username.map(|s| s.to_string()),
        first_name: first.to_string(),
        last_name: last.map(|s| s.to_string()),
    }
}

#[test]
fn repeated_answer_is_recorded_once() {
    let mut repo = repo_with_poll(7, "p1");
    let a = answer("p1", vec![0], user(1, Some("alice"), "Alice", None));
    assert_eq!(process_poll_answer(&mut repo, &a), AnswerOutcome::VoterAdded);
    assert_eq!(process_poll_answer(&mut repo, &a), AnswerOutcome::AlreadyVoted);
    assert_eq!(process_poll_answer(&mut repo, &a), AnswerOutcome::AlreadyVoted);
    let poll = repo.get_poll_by_chat_id(7).unwrap();
    assert_eq!(poll.yes_voters.len(), 1);
    assert_eq!(poll.yes_voters[0].user_id, 1);
}

#[test]
fn same_user_with_changed_name_keeps_the_first_label() {
    let mut repo = repo_with_poll(7, "p1");
    let first = answer("p1", vec![0], user(1, Some("alice"), "Alice", None));
    let renamed = answer("p1", vec![0], user(1, Some("alicia"), "Alicia", None));
    assert_eq!(process_poll_answer(&mut repo, &first), AnswerOutcome::VoterAdded);
    assert_eq!(process_poll_answer(&mut repo, &renamed), AnswerOutcome::AlreadyVoted);
    let poll = repo.get_poll_by_chat_id(7).unwrap();
    assert_eq!(poll.yes_voters.len(), 1);
    assert_eq!(poll.yes_voters[0].display_name, "@alice");
}

#[test]
fn answer_for_unknown_poll_changes_nothing() {
    let mut repo = repo_with_poll(7, "p1");
    let a = answer("missing", vec![0], user(1, Some("alice"), "Alice", None));
    assert_eq!(process_poll_answer(&mut repo, &a), AnswerOutcome::UnknownPoll);
    let poll = repo.get_poll_by_chat_id(7).unwrap();
    assert!(poll.yes_voters.is_empty());
}

#[test]
fn answer_on_empty_store_is_discarded() {
    let mut repo = LunchPollRepository::new();
    let a = answer("p1", vec![0], user(1, Some("alice"), "Alice", None));
    assert_eq!(process_poll_answer(&mut repo, &a), AnswerOutcome::UnknownPoll);
}

#[test]
fn negative_answer_is_not_recorded() {
    let mut repo = repo_with_poll(7, "p1");
    let no_vote = answer("p1", vec![1], user(1, Some("alice"), "Alice", None));
    assert_eq!(process_poll_answer(&mut repo, &no_vote), AnswerOutcome::NotAffirmative);
    let both = answer("p1", vec![0, 1], user(1, Some("alice"), "Alice", None));
    assert_eq!(process_poll_answer(&mut repo, &both), AnswerOutcome::NotAffirmative);
    assert!(repo.get_poll_by_chat_id(7).unwrap().yes_voters.is_empty());
}

#[test]
fn two_distinct_new_users_both_persist_in_arrival_order() {
    let mut repo = repo_with_poll(7, "p1");
    let a1 = answer("p1", vec![0], user(1, Some("alice"), "Alice", None));
    let a2 = answer("p1", vec![0], user(2, Some("bob"), "Bob", None));
    assert_eq!(process_poll_answer(&mut repo, &a1), AnswerOutcome::VoterAdded);
    assert_eq!(process_poll_answer(&mut repo, &a2), AnswerOutcome::VoterAdded);
    let poll = repo.get_poll_by_chat_id(7).unwrap();
    assert_eq!(poll.yes_voters.len(), 2);
    assert_eq!(poll.yes_voters[0].user_id, 1);
    assert_eq!(poll.yes_voters[1].user_id, 2);
}

#[test]
fn answers_only_touch_their_own_poll() {
    let mut repo = repo_with_poll(7, "p1");
    let reply: Result<CreatedPoll, PlatformError> =
        Ok(CreatedPoll { poll_id: "p2".to_string(), poll_msg_id: 101 });
    lunch_cmd(&mut repo, 8, reply);
    let a = answer("p2", vec![0], user(1, Some("alice"), "Alice", None));
    assert_eq!(process_poll_answer(&mut repo, &a), AnswerOutcome::VoterAdded);
    assert!(repo.get_poll_by_chat_id(7).unwrap().yes_voters.is_empty());
    assert_eq!(repo.get_poll_by_chat_id(8).unwrap().yes_voters.len(), 1);
}

#[test]
fn mention_is_preferred_over_full_name() {
    let with_username = user(1, Some("alice"), "Alice", Some("Smith"));
    assert_eq!(with_username.to_voter().display_name, "@alice");
    let with_last = user(2, None, "Alice", Some("Smith"));
    assert_eq!(with_last.to_voter().display_name, "Alice Smith");
    let first_only = user(3, None, "Alice", None);
    assert_eq!(first_only.to_voter().display_name, "Alice");
}

#[test]
fn add_if_absent_appends_at_the_tail_once() {
    let mut voters: Vec<Voter> = Vec::new();
    let alice = Voter { user_id: 1, display_name: "Alice".to_string() };
    let alice_again = Voter { user_id: 1, display_name: "Alicia".to_string() };
    let bob = Voter { user_id: 2, display_name: "Bob".to_string() };
    assert!(add_if_absent(&mut voters, alice));
    assert!(add_if_absent(&mut voters, bob));
    assert!(!add_if_absent(&mut voters, alice_again));
    assert_eq!(voters.len(), 2);
    assert_eq!(voters[0].display_name, "Alice");
    assert_eq!(voters[1].display_name, "Bob");
}

#[test]
fn voter_identity_is_the_user_id_alone() {
    let a = Voter { user_id: 1, display_name: "Alice".to_string() };
    let b = Voter { user_id: 1, display_name: "Someone Else".to_string() };
    let c = Voter { user_id: 2, display_name: "Alice".to_string() };
    assert!(a == b);
    assert!(a != c);
}
