//! The ordered label lists offered with prompts: yes/no pairs, the top-level
//! action menu, the editor menus, and name listings. The core hands these to
//! the presentation layer as plain ordered labels.

use vstd::prelude::*;

use crate::quiz::Answer;
use crate::quiz::AnswerView;

verus! {

/// The label rows of the yes/no prompt.
pub open spec fn yes_no_labels() -> Seq<Seq<Seq<char>>> {
    seq![seq!["Yes✔️"@, "No❌"@]]
}

/// The label rows of the top-level action menu: everyone may take a quiz;
/// only the configured admin may create or edit one.
pub open spec fn action_labels(username: Seq<char>, admin: Seq<char>) -> Seq<Seq<Seq<char>>> {
    if username == admin {
        seq![
            seq!["Take a quiz📝"@],
            seq!["Create a new quiz🏗️"@],
            seq!["Edit an existing quiz✏️️"@],
        ]
    } else {
        seq![seq!["Take a quiz📝"@]]
    }
}

/// The label rows of the quiz-level editor menu.
pub open spec fn edit_quiz_labels() -> Seq<Seq<Seq<char>>> {
    seq![
        seq!["Edit name"@, "Edit description"@],
        seq!["Edit question"@, "Add question"@],
        seq!["Delete quiz🗑️"@],
    ]
}

/// The label rows of the question-level editor menu.
pub open spec fn edit_question_labels() -> Seq<Seq<Seq<char>>> {
    seq![
        seq!["Edit text"@, "Edit answer"@],
        seq!["Add answer"@],
        seq!["Delete question🗑️"@],
    ]
}

/// The label rows of the answer-level editor menu.
pub open spec fn edit_answer_labels() -> Seq<Seq<Seq<char>>> {
    seq![seq!["Edit text"@, "Edit corectness"@], seq!["Delete answer"@]]
}

/// Each name on a row of its own, in the given order.
pub open spec fn name_labels(names: Seq<Seq<char>>) -> Seq<Seq<Seq<char>>> {
    names.map_values(|n: Seq<char>| seq![n])
}

/// The texts of the given answers, in order.
pub open spec fn answer_texts(answers: Seq<AnswerView>) -> Seq<Seq<char>> {
    answers.map_values(|a: AnswerView| a.text)
}

/// The yes/no reply labels.
pub fn yes_no_keyboard() -> (r: Vec<Vec<String>>)
    ensures
        r.deep_view() == yes_no_labels(),
{
    let row: Vec<String> = vec!["Yes✔️".to_owned(), "No❌".to_owned()];
    let rows: Vec<Vec<String>> = vec![row];
    proof {
        assert(rows.deep_view() =~~= yes_no_labels());
    }
    rows
}

/// The top-level action menu for the given user.
pub fn action_keyboard(username: &str, admin: &str) -> (r: Vec<Vec<String>>)
    ensures
        r.deep_view() == action_labels(username@, admin@),
{
    let mut rows: Vec<Vec<String>> = vec![vec!["Take a quiz📝".to_owned()]];
    if crate::tokens::str_eq(username, admin) {
        rows.push(vec!["Create a new quiz🏗️".to_owned()]);
        rows.push(vec!["Edit an existing quiz✏️️".to_owned()]);
        proof {
            assert(rows.deep_view() =~~= action_labels(username@, admin@));
        }
        rows
    } else {
        proof {
            assert(rows.deep_view() =~~= action_labels(username@, admin@));
        }
        rows
    }
}

/// The quiz-level editor menu.
pub fn edit_quiz_keyboard() -> (r: Vec<Vec<String>>)
    ensures
        r.deep_view() == edit_quiz_labels(),
{
    let rows: Vec<Vec<String>> = vec![
        vec!["Edit name".to_owned(), "Edit description".to_owned()],
        vec!["Edit question".to_owned(), "Add question".to_owned()],
        vec!["Delete quiz🗑️".to_owned()],
    ];
    proof {
        assert(rows.deep_view() =~~= edit_quiz_labels());
    }
    rows
}

/// The question-level editor menu.
pub fn edit_question_keyboard() -> (r: Vec<Vec<String>>)
    ensures
        r.deep_view() == edit_question_labels(),
{
    let rows: Vec<Vec<String>> = vec![
        vec!["Edit text".to_owned(), "Edit answer".to_owned()],
        vec!["Add answer".to_owned()],
        vec!["Delete question🗑️".to_owned()],
    ];
    proof {
        assert(rows.deep_view() =~~= edit_question_labels());
    }
    rows
}

/// The answer-level editor menu.
pub fn edit_answer_keyboard() -> (r: Vec<Vec<String>>)
    ensures
        r.deep_view() == edit_answer_labels(),
{
    let rows: Vec<Vec<String>> = vec![
        vec!["Edit text".to_owned(), "Edit corectness".to_owned()],
        vec!["Delete answer".to_owned()],
    ];
    proof {
        assert(rows.deep_view() =~~= edit_answer_labels());
    }
    rows
}

/// Each given name as a selectable row, in order. Used for quiz, question
/// and answer name listings alike.
pub fn names_keyboard(names: Vec<String>) -> (r: Vec<Vec<String>>)
    ensures
        r.deep_view() == name_labels(names.deep_view()),
{
    let mut rows: Vec<Vec<String>> = Vec::new();
    let mut i: usize = 0;
    while i < names.len()
        invariant
            i <= names.len(),
            rows@.len() == i as int,
            forall|j: int|
                0 <= j && j < i as int ==> #[trigger] rows@[j].deep_view() == seq![
                    names.deep_view()[j],
                ],
        decreases names.len() - i,
    {
        let row: Vec<String> = vec![names[i].clone()];
        proof {
            assert(row.deep_view() =~= seq![names.deep_view()[i as int]]);
        }
        rows.push(row);
        i = i + 1;
    }
    proof {
        assert forall|j: int| 0 <= j && j < rows@.len() implies rows.deep_view()[j] == name_labels(
            names.deep_view(),
        )[j] by {
            assert(rows.deep_view()[j] == rows@[j].deep_view());
            assert(name_labels(names.deep_view())[j] == seq![names.deep_view()[j]]);
        }
        assert(rows.deep_view() =~= name_labels(names.deep_view()));
    }
    rows
}

/// The selection labels for the answers of one question, in order.
pub fn answers_keyboard(answers: &Vec<Answer>) -> (r: Vec<String>)
    ensures
        r.deep_view() == answer_texts(answers.deep_view()),
{
    let mut labels: Vec<String> = Vec::new();
    let mut i: usize = 0;
    while i < answers.len()
        invariant
            i <= answers.len(),
            labels@.len() == i as int,
            forall|j: int|
                0 <= j && j < i as int ==> #[trigger] labels@[j]@ == answers.deep_view()[j].text,
        decreases answers.len() - i,
    {
        let label = answers[i].text();
        proof {
            assert(label@ == answers.deep_view()[i as int].text);
        }
        labels.push(label);
        i = i + 1;
    }
    proof {
        assert forall|j: int| 0 <= j && j < labels@.len() implies labels.deep_view()[j]
            == answer_texts(answers.deep_view())[j] by {
            assert(labels.deep_view()[j] == labels@[j]@);
            assert(answer_texts(answers.deep_view())[j] == answers.deep_view()[j].text);
        }
        assert(labels.deep_view() =~= answer_texts(answers.deep_view()));
    }
    labels
}

} // verus!
