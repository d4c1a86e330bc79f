use lunch_bot::command_handlers::{
    cancel_ack_text, create_poll_first_text, create_poll_request, finish_current_text,
    is_tolerated_stop_error, no_one_wants_text,
};
use lunch_bot::db::LunchPollRepository;
use lunch_bot::error_handling::{log_endpoint_err, PlatformError};
use lunch_bot::message_handlers::{help_text, Command};
use lunch_bot::models::{LunchPoll, Voter};
use lunch_bot::render::{decimal_string, render_announcement};
use lunch_bot::shuffle::shuffle;

fn voter(user_id: u64, name: &str) -> Voter {
    Voter { user_id, display_name: name.to_string() }
}

#[test]
fn test_help_sends_expected_message() {
    let expected = "Підтримуються наступні команди:\n\n\
                    /help — Показати цей хелп\n\
                    /lunch — Проголосувати за обід\n\
                    /go — Завершити голосування і вибрати переможців :)\n\
                    /cancel — Скасувати поточне голосування";
    assert_eq!(help_text(), expected);
}

#[test]
fn command_names_are_the_lowercase_forms() {
    assert_eq!(Command::Help.name(), "help");
    assert_eq!(Command::Lunch.name(), "lunch");
    assert_eq!(Command::Go.name(), "go");
    assert_eq!(Command::Cancel.name(), "cancel");
}

#[test]
fn user_notices_have_the_fixed_wording() {
    assert_eq!(finish_current_text(), "Будь ласка, завершіть поточне голосування.");
    assert_eq!(
        create_poll_first_text(),
        "Створіть нове опитування, використовуючи команду /lunch."
    );
    assert_eq!(no_one_wants_text(), "Ніхто не хоче обідати.");
    assert_eq!(cancel_ack_text(), "Охрана, отмєна.");
}

#[test]
fn create_poll_request_is_the_fixed_yes_no_prompt() {
    let req = create_poll_request();
    assert_eq!(req.question, "Обід?");
    assert_eq!(req.options, vec!["Так".to_string(), "Ні".to_string()]);
    assert!(!req.is_anonymous);
}

#[test]
fn only_the_absent_poll_failure_is_tolerated() {
    assert!(is_tolerated_stop_error(&PlatformError::PollAbsent));
    assert!(!is_tolerated_stop_error(&PlatformError::Other));
}

#[test]
fn log_lines_name_the_failure_class() {
    assert_eq!(
        log_endpoint_err(&PlatformError::PollAbsent),
        "platform request failed: the live poll object is absent"
    );
    assert_eq!(log_endpoint_err(&PlatformError::Other), "platform request failed");
}

#[test]
fn decimal_rendering_matches_expected_digits() {
    assert_eq!(decimal_string(0), "0");
    assert_eq!(decimal_string(7), "7");
    assert_eq!(decimal_string(10), "10");
    assert_eq!(decimal_string(12345), "12345");
}

#[test]
fn announcement_lists_voters_one_indexed() {
    let voters = vec![voter(1, "@alice"), voter(2, "Bob Smith"), voter(3, "@carol")];
    assert_eq!(
        render_announcement(&voters),
        "Щасливці у порядку пріоритету:\n1.\t@alice\n2.\tBob Smith\n3.\t@carol"
    );
}

#[test]
fn announcement_positions_grow_past_one_digit() {
    let voters: Vec<Voter> = (1..=10).map(|i| voter(i, &format!("v{i}"))).collect();
    let text = render_announcement(&voters);
    let mut expected = String::from("Щасливці у порядку пріоритету:");
    for i in 1..=10 {
        expected.push_str(&format!("\n{i}.\tv{i}"));
    }
    assert_eq!(text, expected);
}

#[test]
fn announcement_of_one_voter_has_a_single_line() {
    let voters = vec![voter(1, "@alice")];
    assert_eq!(render_announcement(&voters), "Щасливці у порядку пріоритету:\n1.\t@alice");
}

#[test]
fn shuffle_returns_a_permutation() {
    let voters: Vec<Voter> =
        (1..=20).map(|i| voter(i, &format!("v{i}"))).collect();
    let shuffled = shuffle(voters.clone());
    assert_eq!(shuffled.len(), voters.len());
    let mut got: Vec<u64> = shuffled.iter().map(|v| v.user_id).collect();
    got.sort();
    let want: Vec<u64> = (1..=20).collect();
    assert_eq!(got, want);
}

#[test]
fn shuffle_of_empty_and_singleton_lists() {
    assert!(shuffle(Vec::new()).is_empty());
    let one = shuffle(vec![voter(9, "@solo")]);
    assert_eq!(one.len(), 1);
    assert_eq!(one[0].user_id, 9);
    assert_eq!(one[0].display_name, "@solo");
}

#[test]
fn repository_updates_only_the_addressed_row() {
    let mut repo = LunchPollRepository::new();
    let id1 = repo.create_poll(&"p1".to_string(), 100, 7);
    let id2 = repo.create_poll(&"p2".to_string(), 101, 8);
    assert_ne!(id1, id2);

    let mut poll = repo.get_poll_by_chat_id(7).unwrap();
    poll.yes_voters.push(voter(1, "@alice"));
    repo.update_poll_voters(&poll);

    assert_eq!(repo.get_poll_by_chat_id(7).unwrap().yes_voters.len(), 1);
    assert!(repo.get_poll_by_chat_id(8).unwrap().yes_voters.is_empty());

    repo.delete_poll(id1);
    assert!(repo.get_poll_by_chat_id(7).is_none());
    assert!(repo.get_poll_by_chat_id(8).is_some());
}

#[test]
fn repository_lookup_by_poll_identifier() {
    let mut repo = LunchPollRepository::new();
    repo.create_poll(&"p1".to_string(), 100, 7);
    let found: LunchPoll = repo.get_poll_by_poll_id(&"p1".to_string()).unwrap();
    assert_eq!(found.chat_id, 7);
    assert!(repo.get_poll_by_poll_id(&"p9".to_string()).is_none());
}

#[test]
fn update_of_a_deleted_poll_is_a_silent_no_op() {
    let mut repo = LunchPollRepository::new();
    let id = repo.create_poll(&"p1".to_string(), 100, 7);
    let mut poll = repo.get_poll_by_chat_id(7).unwrap();
    repo.delete_poll(id);
    poll.yes_voters.push(voter(1, "@late"));
    repo.update_poll_voters(&poll);
    assert!(repo.get_poll_by_chat_id(7).is_none());
    assert!(repo.get_poll_by_poll_id(&"p1".to_string()).is_none());
}
