use quiz_bot::events::{Action, Event, Msg, Turn};
use quiz_bot::quiz::{Answer, Question, Quiz};
use quiz_bot::schema::transition;
use quiz_bot::state::QuizState;
use quiz_bot::store::QuizStore;

fn msg(text: &str) -> Event {
    Event::Message {
        chat_id: 7,
        username: "admin".to_string(),
        text: Some(text.to_string()),
    }
}

fn admin() -> String {
    "admin".to_string()
}

fn step(store: &mut QuizStore, state: QuizState, text: &str) -> Turn {
    transition(store, state, msg(text), &admin())
}

fn seeded() -> QuizStore {
    let mut store = QuizStore::new();
    store
        .create_quiz(Quiz::new(
            "T".to_string(),
            "d".to_string(),
            "a".to_string(),
            Some(vec![Question::new(
                "Q".to_string(),
                Some(vec![Answer::new("A".to_string(), false)]),
            )]),
        ))
        .unwrap();
    store
}

#[test]
fn select_and_rename_quiz_carries_new_title() {
    let mut store = seeded();
    let t = step(&mut store, QuizState::StartSelect, "T");
    assert!(matches!(&t.next, QuizState::HandleQuiz { quiz_name } if quiz_name == "T"));

    let t = step(&mut store, t.next, "Edit name");
    assert!(matches!(&t.next, QuizState::EditName { .. }));

    // Renaming carries the new title forward into the next state.
    let t = step(&mut store, t.next, "T2");
    assert!(matches!(&t.next, QuizState::HandleQuiz { quiz_name } if quiz_name == "T2"));
    assert!(matches!(&t.actions[0], Action::Send { body: Msg::NameUpdated, .. }));
    assert!(store.retreive_quiz("T2").is_some());
    assert!(store.retreive_quiz("T").is_none());
}

#[test]
fn unknown_quiz_reprompts() {
    let mut store = seeded();
    let t = step(&mut store, QuizState::StartSelect, "missing");
    assert!(matches!(t.next, QuizState::StartSelect));
    assert!(
        matches!(&t.actions[0], Action::Send { body: Msg::QuizNotFound { title }, .. } if title == "missing")
    );
}

#[test]
fn edit_correctness_via_dialogue() {
    let mut store = seeded();
    let state = QuizState::EditCorectness {
        quiz_name: "T".to_string(),
        question_name: "Q".to_string(),
        answer_name: "A".to_string(),
    };
    let t = step(&mut store, state, "Yes");
    assert!(matches!(&t.next, QuizState::HandleAnswer { .. }));
    assert!(matches!(
        &t.actions[0],
        Action::Send { body: Msg::CorrectnessSet { name, correct: true }, .. } if name == "A"
    ));
    assert!(store.retreive_answer("T", "Q", "A").unwrap().is_correct());

    // A rejected token changes neither the state nor the row.
    let t = step(&mut store, t.next, "Edit corectness");
    let t = step(&mut store, t.next, "perhaps");
    assert!(matches!(&t.next, QuizState::EditCorectness { .. }));
    assert!(store.retreive_answer("T", "Q", "A").unwrap().is_correct());
}

#[test]
fn delete_question_via_dialogue_cascades() {
    let mut store = seeded();
    let state = QuizState::HandleQuestion {
        quiz_name: "T".to_string(),
        question_name: "Q".to_string(),
    };
    let t = step(&mut store, state, "Delete question");
    assert!(matches!(&t.next, QuizState::HandleQuiz { quiz_name } if quiz_name == "T"));
    assert!(matches!(&t.actions[0], Action::Send { body: Msg::QuestionDeleted, .. }));
    assert!(store.retreive_question("T", "Q").is_none());
    assert!(store.retreive_answer("T", "Q", "A").is_none());
}

#[test]
fn add_answer_stores_correct_either_way() {
    // The known quirk of this flow: the negative reply also stores the
    // answer as correct; only the confirmation text differs.
    let mut store = seeded();
    let state = QuizState::AddAnswerCorrectness {
        quiz_name: "T".to_string(),
        question_name: "Q".to_string(),
        text: "B".to_string(),
    };
    let t = step(&mut store, state, "No");
    assert!(matches!(&t.next, QuizState::HandleQuestion { .. }));
    assert!(matches!(
        &t.actions[0],
        Action::Send { body: Msg::AnswerSaved { name, correct: false }, .. } if name == "B"
    ));
    assert!(store.retreive_answer("T", "Q", "B").unwrap().is_correct());
}

#[test]
fn editor_navigation_moves_up_one_level() {
    let mut store = seeded();
    let state = QuizState::HandleAnswer {
        quiz_name: "T".to_string(),
        question_name: "Q".to_string(),
        answer_name: "A".to_string(),
    };
    let t = step(&mut store, state, "/back");
    assert!(matches!(&t.next, QuizState::HandleQuestion { .. }));
    assert!(matches!(&t.actions[0], Action::Send { body: Msg::ReturningBack, .. }));

    let t = step(&mut store, t.next, "/back");
    assert!(matches!(&t.next, QuizState::HandleQuiz { .. }));

    let t = step(&mut store, t.next, "/back");
    assert!(matches!(t.next, QuizState::Start));
}

#[test]
fn add_question_via_dialogue() {
    let mut store = seeded();
    let state = QuizState::AddQuestion {
        quiz_name: "T".to_string(),
    };
    let t = step(&mut store, state, "Q2");
    assert!(matches!(&t.next, QuizState::HandleQuiz { .. }));
    assert!(
        matches!(&t.actions[0], Action::Send { body: Msg::QuestionCreated { text }, .. } if text == "Q2")
    );
    assert_eq!(store.retreive_all_question_names("T"), vec!["Q", "Q2"]);

    // A duplicate text is refused and the state does not advance.
    let state = QuizState::AddQuestion {
        quiz_name: "T".to_string(),
    };
    let t = step(&mut store, state, "Q2");
    assert!(matches!(&t.next, QuizState::AddQuestion { .. }));
    assert!(matches!(&t.actions[0], Action::Send { body: Msg::TryAgainLater, .. }));
}
