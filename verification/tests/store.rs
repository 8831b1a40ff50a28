use quiz_bot::quiz::{Answer, Question, Quiz};
use quiz_bot::store::{QuizStore, RepoError};

fn quiz_t() -> Quiz {
    // T: Q1 [A(false)], Q2 [A(false), B(true)]
    let q1 = Question::new(
        "Q1".to_string(),
        Some(vec![Answer::new("A".to_string(), false)]),
    );
    let q2 = Question::new(
        "Q2".to_string(),
        Some(vec![
            Answer::new("A".to_string(), false),
            Answer::new("B".to_string(), true),
        ]),
    );
    Quiz::new(
        "T".to_string(),
        "a quiz".to_string(),
        "author".to_string(),
        Some(vec![q1, q2]),
    )
}

fn quiz_u() -> Quiz {
    // U: Q2 [A(false)]
    let q2 = Question::new(
        "Q2".to_string(),
        Some(vec![Answer::new("A".to_string(), false)]),
    );
    Quiz::new(
        "U".to_string(),
        "another quiz".to_string(),
        "author".to_string(),
        Some(vec![q2]),
    )
}

#[test]
fn create_and_retrieve_aggregate() {
    let mut store = QuizStore::new();
    let name = store.create_quiz(quiz_t()).unwrap();
    assert_eq!(name, "T");

    let got = store.retreive_quiz("T").unwrap();
    assert_eq!(got.title(), "T");
    assert_eq!(got.description(), "a quiz");
    assert_eq!(got.author(), "author");
    assert_eq!(got.questions().len(), 2);
    assert_eq!(got.questions()[0].text(), "Q1");
    assert_eq!(got.questions()[1].text(), "Q2");
    assert_eq!(got.questions()[1].answers()[0].text(), "A");
    assert_eq!(got.questions()[1].answers()[1].text(), "B");
    assert!(got.questions()[1].answers()[1].is_correct());

    assert!(store.retreive_quiz("missing").is_none());
}

#[test]
fn duplicate_title_is_a_conflict() {
    let mut store = QuizStore::new();
    store.create_quiz(quiz_t()).unwrap();
    let again = Quiz::new(
        "T".to_string(),
        "other".to_string(),
        "someone".to_string(),
        None,
    );
    assert_eq!(store.create_quiz(again).unwrap_err(), RepoError::Conflict);
}

#[test]
fn duplicate_question_text_in_draft_is_a_conflict() {
    let mut store = QuizStore::new();
    let dup = Quiz::new(
        "D".to_string(),
        "d".to_string(),
        "a".to_string(),
        Some(vec![
            Question::new("Q".to_string(), None),
            Question::new("Q".to_string(), None),
        ]),
    );
    assert_eq!(store.create_quiz(dup).unwrap_err(), RepoError::Conflict);
    assert!(store.retreive_quiz("D").is_none());
}

#[test]
fn list_names_keeps_insertion_order() {
    let mut store = QuizStore::new();
    store.create_quiz(quiz_t()).unwrap();
    store.create_quiz(quiz_u()).unwrap();
    assert_eq!(store.retreive_all_quiz_names(), vec!["T", "U"]);
    assert_eq!(store.retreive_all_question_names("T"), vec!["Q1", "Q2"]);
    assert_eq!(store.retreive_all_answers_names("T", "Q2"), vec!["A", "B"]);
    assert!(store.retreive_all_question_names("missing").is_empty());
}

#[test]
fn edit_correctness_updates_only_that_row() {
    let mut store = QuizStore::new();
    store.create_quiz(quiz_t()).unwrap();
    store.create_quiz(quiz_u()).unwrap();

    store.edit_corectness("T", "Q2", "A", true).unwrap();

    assert!(store.retreive_answer("T", "Q2", "A").unwrap().is_correct());
    // The identically named answer under another question of the same quiz
    // and under another quiz is unaffected.
    assert!(!store.retreive_answer("T", "Q1", "A").unwrap().is_correct());
    assert!(!store.retreive_answer("U", "Q2", "A").unwrap().is_correct());
    // And the sibling answer of the edited question kept its value.
    assert!(store.retreive_answer("T", "Q2", "B").unwrap().is_correct());
}

#[test]
fn delete_question_cascades_over_answers() {
    let mut store = QuizStore::new();
    store.create_quiz(quiz_t()).unwrap();

    store.delete_question("T", "Q2").unwrap();

    assert!(store.retreive_question("T", "Q2").is_none());
    assert!(store.retreive_answer("T", "Q2", "A").is_none());
    assert!(store.retreive_answer("T", "Q2", "B").is_none());
    // The sibling question and the aggregate itself are still there.
    assert!(store.retreive_question("T", "Q1").is_some());
    assert_eq!(store.retreive_all_quiz_names(), vec!["T"]);
}

#[test]
fn delete_quiz_cascades_over_children() {
    let mut store = QuizStore::new();
    store.create_quiz(quiz_t()).unwrap();
    store.create_quiz(quiz_u()).unwrap();

    let echoed = store.delete_quiz("T");
    assert_eq!(echoed, "T");
    assert!(store.retreive_quiz("T").is_none());
    assert!(store.retreive_question("T", "Q1").is_none());
    assert_eq!(store.retreive_all_quiz_names(), vec!["U"]);
}

#[test]
fn edit_name_carries_conflicts_and_not_found() {
    let mut store = QuizStore::new();
    store.create_quiz(quiz_t()).unwrap();
    store.create_quiz(quiz_u()).unwrap();

    assert_eq!(
        store.edit_name("missing", "X").unwrap_err(),
        RepoError::NotFound
    );
    assert_eq!(store.edit_name("T", "U").unwrap_err(), RepoError::Conflict);
    assert_eq!(store.edit_name("T", "T2").unwrap(), "T2");
    assert!(store.retreive_quiz("T").is_none());
    assert_eq!(store.retreive_quiz("T2").unwrap().description(), "a quiz");
}

#[test]
fn edit_description_and_texts() {
    let mut store = QuizStore::new();
    store.create_quiz(quiz_t()).unwrap();

    store.edit_description("T", "new words").unwrap();
    assert_eq!(store.retreive_quiz("T").unwrap().description(), "new words");

    store.edit_text("T", "Q1", "Q1b").unwrap();
    assert!(store.retreive_question("T", "Q1").is_none());
    assert_eq!(store.retreive_question("T", "Q1b").unwrap().text(), "Q1b");
    // Renaming onto a sibling's text is refused.
    assert_eq!(
        store.edit_text("T", "Q1b", "Q2").unwrap_err(),
        RepoError::Conflict
    );

    store.edit_answer_text("T", "Q2", "A", "A2").unwrap();
    assert!(store.retreive_answer("T", "Q2", "A").is_none());
    assert_eq!(store.retreive_answer("T", "Q2", "A2").unwrap().text(), "A2");
    assert_eq!(
        store.edit_answer_text("T", "Q2", "A2", "B").unwrap_err(),
        RepoError::Conflict
    );
}

#[test]
fn create_children_by_natural_key() {
    let mut store = QuizStore::new();
    store.create_quiz(quiz_t()).unwrap();

    assert_eq!(store.create_question("T", "Q3").unwrap(), "Q3");
    assert_eq!(
        store.create_question("T", "Q3").unwrap_err(),
        RepoError::Conflict
    );
    assert_eq!(
        store.create_question("missing", "Q").unwrap_err(),
        RepoError::NotFound
    );

    assert_eq!(store.create_answer("T", "Q3", "C", true).unwrap(), "C");
    assert_eq!(
        store.create_answer("T", "Q3", "C", false).unwrap_err(),
        RepoError::Conflict
    );
    assert_eq!(
        store.create_answer("T", "missing", "C", false).unwrap_err(),
        RepoError::NotFound
    );
    assert!(store.retreive_answer("T", "Q3", "C").unwrap().is_correct());
}

#[test]
fn delete_answer_leaves_siblings() {
    let mut store = QuizStore::new();
    store.create_quiz(quiz_t()).unwrap();

    store.delete_answer("T", "Q2", "A").unwrap();
    assert!(store.retreive_answer("T", "Q2", "A").is_none());
    assert!(store.retreive_answer("T", "Q2", "B").is_some());
    assert_eq!(
        store.delete_answer("T", "Q2", "A").unwrap_err(),
        RepoError::NotFound
    );
}
