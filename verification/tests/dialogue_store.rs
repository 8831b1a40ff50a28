use quiz_bot::dialogue::DialogueStore;
use quiz_bot::events::{Action, Event, Msg};
use quiz_bot::schema::handle_event;
use quiz_bot::state::QuizState;
use quiz_bot::store::QuizStore;

#[test]
fn a_fresh_dialogue_is_idle() {
    assert!(matches!(QuizState::default(), QuizState::Start));
}

#[test]
fn absent_users_are_idle_at_version_zero() {
    let store = DialogueStore::new();
    let (version, state) = store.get(9);
    assert_eq!(version, 0);
    assert!(matches!(state, QuizState::Start));
}

/// Two writes that both read the same version cannot both land: the first
/// moves the version on, so the second is refused and changes nothing.
#[test]
fn stale_write_is_refused() {
    let mut store = DialogueStore::new();
    let (version, _) = store.get(9);

    assert!(store.set(9, version, QuizState::Selection));
    // A concurrent transition that had read the same version loses.
    assert!(!store.set(9, version, QuizState::StartSelect));

    let (v2, state) = store.get(9);
    assert_ne!(v2, version);
    assert!(matches!(state, QuizState::Selection));
}

#[test]
fn users_do_not_disturb_one_another() {
    let mut store = DialogueStore::new();
    let (v1, _) = store.get(1);
    assert!(store.set(1, v1, QuizState::Selection));
    let (v2, _) = store.get(2);
    assert!(store.set(2, v2, QuizState::StartSelect));

    // Each user still sees exactly their own dialogue.
    assert!(matches!(store.get(1).1, QuizState::Selection));
    assert!(matches!(store.get(2).1, QuizState::StartSelect));

    store.clear(1);
    assert_eq!(store.get(1).0, 0);
    assert!(matches!(store.get(1).1, QuizState::Start));
    assert!(matches!(store.get(2).1, QuizState::StartSelect));
}

#[test]
fn engine_runs_one_event_to_completion() {
    let mut dialogue = DialogueStore::new();
    let mut repo = QuizStore::new();
    let admin = "admin".to_string();

    let actions = handle_event(
        &mut dialogue,
        &mut repo,
        9,
        Event::Message {
            chat_id: 7,
            username: "admin".to_string(),
            text: Some("Create a new quiz🏗️".to_string()),
        },
        &admin,
    );
    assert!(matches!(&actions[0], Action::Send { body: Msg::AskQuizTitle, .. }));
    assert!(matches!(dialogue.get(9).1, QuizState::ReceiveQuizName));

    let actions = handle_event(
        &mut dialogue,
        &mut repo,
        9,
        Event::Message {
            chat_id: 7,
            username: "admin".to_string(),
            text: Some("/cancel".to_string()),
        },
        &admin,
    );
    assert!(matches!(&actions[0], Action::Send { body: Msg::Cancelling, .. }));
    assert!(matches!(dialogue.get(9).1, QuizState::Start));
}
