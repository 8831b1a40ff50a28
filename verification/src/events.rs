//! Inbound events and outbound actions at the transport boundary. The core
//! consumes tagged inbound events and emits outbound message and edit
//! actions; message bodies are structured values and option sets are ordered
//! label lists, never platform markup.

use vstd::prelude::*;

use crate::quiz::Answer;
use crate::quiz::AnswerView;
use crate::quiz::Question;
use crate::quiz::QuestionView;
use crate::quiz::Quiz;
use crate::quiz::QuizView;
use crate::state::QuizState;
use crate::state::StateView;

verus! {

/// The message a callback selection was attached to, as far as the transport
/// reports it: its id and its current text.
#[derive(Debug)]
pub struct SourceMessage {
    pub message_id: i64,
    pub text: String,
}

/// Mathematical view of a [`SourceMessage`].
pub struct SourceMessageView {
    pub message_id: i64,
    pub text: Seq<char>,
}

impl View for SourceMessage {
    type V = SourceMessageView;

    open spec fn view(&self) -> SourceMessageView {
        SourceMessageView { message_id: self.message_id, text: self.text@ }
    }
}

impl DeepView for SourceMessage {
    type V = SourceMessageView;

    open spec fn deep_view(&self) -> SourceMessageView {
        self.view()
    }
}

/// One inbound event delivered by the transport.
#[derive(Debug)]
pub enum Event {
    /// A plain text message (text is absent for stickers, photos and the
    /// like).
    Message { chat_id: i64, username: String, text: Option<String> },
    /// A callback selection: the user pressed one of the selectable labels
    /// attached to an earlier message. Used only for in-quiz answer
    /// selection.
    Callback {
        chat_id: i64,
        username: String,
        callback_id: String,
        data: Option<String>,
        message: Option<SourceMessage>,
    },
}

/// Mathematical view of an [`Event`].
pub enum EventView {
    Message { chat_id: i64, username: Seq<char>, text: Option<Seq<char>> },
    Callback {
        chat_id: i64,
        username: Seq<char>,
        callback_id: Seq<char>,
        data: Option<Seq<char>>,
        message: Option<SourceMessageView>,
    },
}

impl View for Event {
    type V = EventView;

    open spec fn view(&self) -> EventView {
        match self {
            Event::Message { chat_id, username, text } => EventView::Message {
                chat_id: *chat_id,
                username: username@,
                text: text.deep_view(),
            },
            Event::Callback { chat_id, username, callback_id, data, message } => {
                EventView::Callback {
                    chat_id: *chat_id,
                    username: username@,
                    callback_id: callback_id@,
                    data: data.deep_view(),
                    message: message.deep_view(),
                }
            },
        }
    }
}

/// A structured outbound message body. The presentation layer renders each
/// variant to the final text; the core never emits platform markup.
#[derive(Debug)]
pub enum Msg {
    /// The list of available commands.
    Help,
    /// The dialogue was cancelled.
    Cancelling,
    /// The top-level menu prompt.
    ChooseWhatToDo,
    /// The input did not match any choice offered in the current state.
    InvalidInput,
    /// The event could not be handled in the current state at all.
    UnableToHandle,
    /// Ask for the title of the new quiz.
    AskQuizTitle,
    /// There is no quiz in the repository yet.
    NoQuizzesAvailable,
    /// Ask which quiz to take.
    ChooseQuizToTake,
    /// Ask which quiz to edit.
    SelectQuizToEdit,
    /// A quiz with the submitted title already exists.
    TitleExists,
    /// Ask for the description of the new quiz.
    AskDescription,
    /// The event carried no title text.
    TitleMissing,
    /// Ask whether to add the first question.
    AskFirstQuestion,
    /// The event carried no description text.
    DescriptionMissing,
    /// Ask for the text of the new question.
    AskQuestionText,
    /// The quiz was committed under the given title.
    QuizSaved { title: String },
    /// Ask again for an affirmative or negative token.
    InvalidYesNo,
    /// Ask for the text of the first answer.
    AskAnswerText,
    /// The event carried no answer text.
    AnswerMissing,
    /// Ask whether the pending answer is correct.
    AskIsCorrect,
    /// The pending answer was recorded with the given correctness.
    AnswerRecorded { correct: bool },
    /// Ask for the text of another answer.
    AskAnotherAnswerText,
    /// The question was added to the draft; ask about another one.
    QuestionSaved,
    /// Intro of the selected quiz before a run.
    QuizIntro { title: String, description: String, author: String, question_count: usize },
    /// No quiz under that title.
    QuizNotFound { title: String },
    /// The event carried no text at all.
    NoInput,
    /// The selected quiz has no questions.
    NoQuestions,
    /// The run begins.
    LetsBegin,
    /// The current question has no answers and is skipped.
    SkipNotice,
    /// Present the question with the given 1-based number.
    AskQuestion { number: usize, text: String },
    /// The run was aborted before it began.
    QuitQuiz,
    /// Back at the top-level menu.
    WhatNext,
    /// Annotation appended to an answered question.
    AnswerFeedback { given: String, correct: bool },
    /// The run traversed every question.
    Congratulations,
    /// The final report of a run: `score` out of `total` answerable
    /// questions.
    QuizResult { score: u32, total: usize },
    /// The answer's correctness is now the given value.
    CorrectnessSet { name: String, correct: bool },
    /// The answer's text is now the given value.
    AnswerTextUpdated { new_text: String },
    /// The question's text was updated.
    QuestionTextUpdated,
    /// Navigating up one level.
    ReturningBack,
    /// Display a quiz aggregate.
    ShowQuiz { quiz: Quiz },
    /// Display a question with its answers.
    ShowQuestion { question: Question },
    /// Display one answer.
    ShowAnswer { answer: Answer },
    /// The answer was deleted.
    AnswerDeleted,
    /// Back at the question level.
    HandleQuestionPrompt,
    /// Ask for the new answer text.
    NewAnswerTextPrompt,
    /// Ask whether the answer is correct.
    AskCorrectness,
    /// The answer was selected.
    AnswerSelected { text: String },
    /// No answer under that text.
    AnswerNotFound,
    /// A generic error notice; ask to try again.
    GenericError,
    /// The question was deleted with its answers.
    QuestionDeleted,
    /// Ask for the new question text.
    NewQuestionTextPrompt,
    /// Ask what the added answer looks like.
    AddAnswerPrompt,
    /// Ask which answer to edit.
    ChooseAnswerToEdit,
    /// The question was created in storage.
    QuestionCreated { text: String },
    /// A repository error; ask to try again later.
    TryAgainLater,
    /// The added answer was saved with the given correctness.
    AnswerSaved { name: String, correct: bool },
    /// The question was selected.
    QuestionSelected { text: String },
    /// No question under that text.
    QuestionNotFound { text: String },
    /// The quiz was chosen for editing.
    QuizChosen { title: String },
    /// The quiz was deleted with its questions and answers.
    DeletedQuiz { title: String },
    /// Ask for the new quiz title.
    NewQuizNamePrompt,
    /// Ask for the new quiz description.
    NewQuizDescriptionPrompt,
    /// Ask for the text of the question to add.
    AddQuestionPrompt,
    /// The quiz has no questions to edit.
    NoQuestionsAvailable,
    /// Ask which question to edit.
    ChooseQuestionToEdit,
    /// The quiz title was updated.
    NameUpdated,
    /// The quiz description was updated.
    DescriptionUpdated,
    /// The event carried no text where some was needed.
    NothingEntered,
}

/// Mathematical view of a [`Msg`].
pub enum MsgView {
    Help,
    Cancelling,
    ChooseWhatToDo,
    InvalidInput,
    UnableToHandle,
    AskQuizTitle,
    NoQuizzesAvailable,
    ChooseQuizToTake,
    SelectQuizToEdit,
    TitleExists,
    AskDescription,
    TitleMissing,
    AskFirstQuestion,
    DescriptionMissing,
    AskQuestionText,
    QuizSaved { title: Seq<char> },
    InvalidYesNo,
    AskAnswerText,
    AnswerMissing,
    AskIsCorrect,
    AnswerRecorded { correct: bool },
    AskAnotherAnswerText,
    QuestionSaved,
    QuizIntro {
        title: Seq<char>,
        description: Seq<char>,
        author: Seq<char>,
        question_count: usize,
    },
    QuizNotFound { title: Seq<char> },
    NoInput,
    NoQuestions,
    LetsBegin,
    SkipNotice,
    AskQuestion { number: usize, text: Seq<char> },
    QuitQuiz,
    WhatNext,
    AnswerFeedback { given: Seq<char>, correct: bool },
    Congratulations,
    QuizResult { score: u32, total: usize },
    CorrectnessSet { name: Seq<char>, correct: bool },
    AnswerTextUpdated { new_text: Seq<char> },
    QuestionTextUpdated,
    ReturningBack,
    ShowQuiz { quiz: QuizView },
    ShowQuestion { question: QuestionView },
    ShowAnswer { answer: AnswerView },
    AnswerDeleted,
    HandleQuestionPrompt,
    NewAnswerTextPrompt,
    AskCorrectness,
    AnswerSelected { text: Seq<char> },
    AnswerNotFound,
    GenericError,
    QuestionDeleted,
    NewQuestionTextPrompt,
    AddAnswerPrompt,
    ChooseAnswerToEdit,
    QuestionCreated { text: Seq<char> },
    TryAgainLater,
    AnswerSaved { name: Seq<char>, correct: bool },
    QuestionSelected { text: Seq<char> },
    QuestionNotFound { text: Seq<char> },
    QuizChosen { title: Seq<char> },
    DeletedQuiz { title: Seq<char> },
    NewQuizNamePrompt,
    NewQuizDescriptionPrompt,
    AddQuestionPrompt,
    NoQuestionsAvailable,
    ChooseQuestionToEdit,
    NameUpdated,
    DescriptionUpdated,
    NothingEntered,
}

impl View for Msg {
    type V = MsgView;

    open spec fn view(&self) -> MsgView {
        match self {
            Msg::Help => MsgView::Help,
            Msg::Cancelling => MsgView::Cancelling,
            Msg::ChooseWhatToDo => MsgView::ChooseWhatToDo,
            Msg::InvalidInput => MsgView::InvalidInput,
            Msg::UnableToHandle => MsgView::UnableToHandle,
            Msg::AskQuizTitle => MsgView::AskQuizTitle,
            Msg::NoQuizzesAvailable => MsgView::NoQuizzesAvailable,
            Msg::ChooseQuizToTake => MsgView::ChooseQuizToTake,
            Msg::SelectQuizToEdit => MsgView::SelectQuizToEdit,
            Msg::TitleExists => MsgView::TitleExists,
            Msg::AskDescription => MsgView::AskDescription,
            Msg::TitleMissing => MsgView::TitleMissing,
            Msg::AskFirstQuestion => MsgView::AskFirstQuestion,
            Msg::DescriptionMissing => MsgView::DescriptionMissing,
            Msg::AskQuestionText => MsgView::AskQuestionText,
            Msg::QuizSaved { title } => MsgView::QuizSaved { title: title@ },
            Msg::InvalidYesNo => MsgView::InvalidYesNo,
            Msg::AskAnswerText => MsgView::AskAnswerText,
            Msg::AnswerMissing => MsgView::AnswerMissing,
            Msg::AskIsCorrect => MsgView::AskIsCorrect,
            Msg::AnswerRecorded { correct } => MsgView::AnswerRecorded { correct: *correct },
            Msg::AskAnotherAnswerText => MsgView::AskAnotherAnswerText,
            Msg::QuestionSaved => MsgView::QuestionSaved,
            Msg::QuizIntro { title, description, author, question_count } => MsgView::QuizIntro {
                title: title@,
                description: description@,
                author: author@,
                question_count: *question_count,
            },
            Msg::QuizNotFound { title } => MsgView::QuizNotFound { title: title@ },
            Msg::NoInput => MsgView::NoInput,
            Msg::NoQuestions => MsgView::NoQuestions,
            Msg::LetsBegin => MsgView::LetsBegin,
            Msg::SkipNotice => MsgView::SkipNotice,
            Msg::AskQuestion { number, text } => MsgView::AskQuestion {
                number: *number,
                text: text@,
            },
            Msg::QuitQuiz => MsgView::QuitQuiz,
            Msg::WhatNext => MsgView::WhatNext,
            Msg::AnswerFeedback { given, correct } => MsgView::AnswerFeedback {
                given: given@,
                correct: *correct,
            },
            Msg::Congratulations => MsgView::Congratulations,
            Msg::QuizResult { score, total } => MsgView::QuizResult {
                score: *score,
                total: *total,
            },
            Msg::CorrectnessSet { name, correct } => MsgView::CorrectnessSet {
                name: name@,
                correct: *correct,
            },
            Msg::AnswerTextUpdated { new_text } => MsgView::AnswerTextUpdated {
                new_text: new_text@,
            },
            Msg::QuestionTextUpdated => MsgView::QuestionTextUpdated,
            Msg::ReturningBack => MsgView::ReturningBack,
            Msg::ShowQuiz { quiz } => MsgView::ShowQuiz { quiz: quiz@ },
            Msg::ShowQuestion { question } => MsgView::ShowQuestion { question: question@ },
            Msg::ShowAnswer { answer } => MsgView::ShowAnswer { answer: answer@ },
            Msg::AnswerDeleted => MsgView::AnswerDeleted,
            Msg::HandleQuestionPrompt => MsgView::HandleQuestionPrompt,
            Msg::NewAnswerTextPrompt => MsgView::NewAnswerTextPrompt,
            Msg::AskCorrectness => MsgView::AskCorrectness,
            Msg::AnswerSelected { text } => MsgView::AnswerSelected { text: text@ },
            Msg::AnswerNotFound => MsgView::AnswerNotFound,
            Msg::GenericError => MsgView::GenericError,
            Msg::QuestionDeleted => MsgView::QuestionDeleted,
            Msg::NewQuestionTextPrompt => MsgView::NewQuestionTextPrompt,
            Msg::AddAnswerPrompt => MsgView::AddAnswerPrompt,
            Msg::ChooseAnswerToEdit => MsgView::ChooseAnswerToEdit,
            Msg::QuestionCreated { text } => MsgView::QuestionCreated { text: text@ },
            Msg::TryAgainLater => MsgView::TryAgainLater,
            Msg::AnswerSaved { name, correct } => MsgView::AnswerSaved {
                name: name@,
                correct: *correct,
            },
            Msg::QuestionSelected { text } => MsgView::QuestionSelected { text: text@ },
            Msg::QuestionNotFound { text } => MsgView::QuestionNotFound { text: text@ },
            Msg::QuizChosen { title } => MsgView::QuizChosen { title: title@ },
            Msg::DeletedQuiz { title } => MsgView::DeletedQuiz { title: title@ },
            Msg::NewQuizNamePrompt => MsgView::NewQuizNamePrompt,
            Msg::NewQuizDescriptionPrompt => MsgView::NewQuizDescriptionPrompt,
            Msg::AddQuestionPrompt => MsgView::AddQuestionPrompt,
            Msg::NoQuestionsAvailable => MsgView::NoQuestionsAvailable,
            Msg::ChooseQuestionToEdit => MsgView::ChooseQuestionToEdit,
            Msg::NameUpdated => MsgView::NameUpdated,
            Msg::DescriptionUpdated => MsgView::DescriptionUpdated,
            Msg::NothingEntered => MsgView::NothingEntered,
        }
    }
}

impl DeepView for Msg {
    type V = MsgView;

    open spec fn deep_view(&self) -> MsgView {
        self.view()
    }
}

/// The ordered selectable labels attached to an outbound message.
#[derive(Debug)]
pub enum OptionSet {
    /// Leave whatever labels the chat currently shows.
    Keep,
    /// Remove the currently shown labels.
    Remove,
    /// Show these label rows as plain reply choices.
    Rows(Vec<Vec<String>>),
    /// Show these labels as selection buttons that come back as callback
    /// data.
    Choices(Vec<String>),
}

/// Mathematical view of an [`OptionSet`].
pub enum OptionSetView {
    Keep,
    Remove,
    Rows(Seq<Seq<Seq<char>>>),
    Choices(Seq<Seq<char>>),
}

impl View for OptionSet {
    type V = OptionSetView;

    open spec fn view(&self) -> OptionSetView {
        match self {
            OptionSet::Keep => OptionSetView::Keep,
            OptionSet::Remove => OptionSetView::Remove,
            OptionSet::Rows(rows) => OptionSetView::Rows(rows.deep_view()),
            OptionSet::Choices(labels) => OptionSetView::Choices(labels.deep_view()),
        }
    }
}

impl DeepView for OptionSet {
    type V = OptionSetView;

    open spec fn deep_view(&self) -> OptionSetView {
        self.view()
    }
}

/// One outbound action the transport is asked to execute.
#[derive(Debug)]
pub enum Action {
    /// Send a message to the chat, with the given labels.
    Send { chat_id: i64, body: Msg, options: OptionSet },
    /// Edit the text of an already sent message in place.
    EditMessage { chat_id: i64, message_id: i64, body: Msg },
    /// Acknowledge a callback selection.
    AnswerCallback { callback_id: String },
}

/// Mathematical view of an [`Action`].
pub enum ActionView {
    Send { chat_id: i64, body: MsgView, options: OptionSetView },
    EditMessage { chat_id: i64, message_id: i64, body: MsgView },
    AnswerCallback { callback_id: Seq<char> },
}

impl View for Action {
    type V = ActionView;

    open spec fn view(&self) -> ActionView {
        match self {
            Action::Send { chat_id, body, options } => ActionView::Send {
                chat_id: *chat_id,
                body: body@,
                options: options@,
            },
            Action::EditMessage { chat_id, message_id, body } => ActionView::EditMessage {
                chat_id: *chat_id,
                message_id: *message_id,
                body: body@,
            },
            Action::AnswerCallback { callback_id } => ActionView::AnswerCallback {
                callback_id: callback_id@,
            },
        }
    }
}

impl DeepView for Action {
    type V = ActionView;

    open spec fn deep_view(&self) -> ActionView {
        self.view()
    }
}

/// The outcome of one dialogue turn: the next state and the outbound actions,
/// in the order they are to be executed.
#[derive(Debug)]
pub struct Turn {
    pub next: QuizState,
    pub actions: Vec<Action>,
}

/// Mathematical view of a [`Turn`].
pub struct TurnView {
    pub next: StateView,
    pub actions: Seq<ActionView>,
}

impl View for Turn {
    type V = TurnView;

    open spec fn view(&self) -> TurnView {
        TurnView { next: self.next@, actions: self.actions.deep_view() }
    }
}

/// A plain send, leaving the shown labels as they are.
pub open spec fn send_keep(chat_id: i64, body: MsgView) -> ActionView {
    ActionView::Send { chat_id, body, options: OptionSetView::Keep }
}

/// A send that removes the shown labels.
pub open spec fn send_remove(chat_id: i64, body: MsgView) -> ActionView {
    ActionView::Send { chat_id, body, options: OptionSetView::Remove }
}

/// A send offering label rows.
pub open spec fn send_rows(chat_id: i64, body: MsgView, rows: Seq<Seq<Seq<char>>>) -> ActionView {
    ActionView::Send { chat_id, body, options: OptionSetView::Rows(rows) }
}

/// A send offering selection labels.
pub open spec fn send_choices(chat_id: i64, body: MsgView, labels: Seq<Seq<char>>) -> ActionView {
    ActionView::Send { chat_id, body, options: OptionSetView::Choices(labels) }
}

/// Builds a plain send.
pub fn act_send_keep(chat_id: i64, body: Msg) -> (a: Action)
    ensures
        a@ == send_keep(chat_id, body@),
{
    Action::Send { chat_id, body, options: OptionSet::Keep }
}

/// Builds a send that removes the shown labels.
pub fn act_send_remove(chat_id: i64, body: Msg) -> (a: Action)
    ensures
        a@ == send_remove(chat_id, body@),
{
    Action::Send { chat_id, body, options: OptionSet::Remove }
}

/// Builds a send offering label rows.
pub fn act_send_rows(chat_id: i64, body: Msg, rows: Vec<Vec<String>>) -> (a: Action)
    ensures
        a@ == send_rows(chat_id, body@, rows.deep_view()),
{
    Action::Send { chat_id, body, options: OptionSet::Rows(rows) }
}

/// Builds a send offering selection labels.
pub fn act_send_choices(chat_id: i64, body: Msg, labels: Vec<String>) -> (a: Action)
    ensures
        a@ == send_choices(chat_id, body@, labels.deep_view()),
{
    Action::Send { chat_id, body, options: OptionSet::Choices(labels) }
}

/// A turn with no actions.
pub fn turn0(next: QuizState) -> (t: Turn)
    ensures
        t@ == (TurnView { next: next@, actions: Seq::<ActionView>::empty() }),
{
    let actions: Vec<Action> = Vec::new();
    proof {
        assert(actions.deep_view() =~= Seq::<ActionView>::empty());
    }
    Turn { next, actions }
}

/// A turn with one action.
pub fn turn1(next: QuizState, a: Action) -> (t: Turn)
    ensures
        t@ == (TurnView { next: next@, actions: seq![a@] }),
{
    let ghost av = a@;
    let actions: Vec<Action> = vec![a];
    proof {
        assert(actions.deep_view() =~= seq![av]);
    }
    Turn { next, actions }
}

/// A turn with two actions, in order.
pub fn turn2(next: QuizState, a: Action, b: Action) -> (t: Turn)
    ensures
        t@ == (TurnView { next: next@, actions: seq![a@, b@] }),
{
    let ghost av = a@;
    let ghost bv = b@;
    let actions: Vec<Action> = vec![a, b];
    proof {
        assert(actions.deep_view() =~= seq![av, bv]);
    }
    Turn { next, actions }
}

/// A turn with three actions, in order.
pub fn turn3(next: QuizState, a: Action, b: Action, c: Action) -> (t: Turn)
    ensures
        t@ == (TurnView { next: next@, actions: seq![a@, b@, c@] }),
{
    let ghost av = a@;
    let ghost bv = b@;
    let ghost cv = c@;
    let actions: Vec<Action> = vec![a, b, c];
    proof {
        assert(actions.deep_view() =~= seq![av, bv, cv]);
    }
    Turn { next, actions }
}

} // verus!
