//! The quiz repository: transactional persistence of the quiz aggregate and
//! natural-key-scoped reads, edits and deletes on its children. Titles are
//! unique across the store; question texts are unique within their quiz;
//! answer texts are unique within their question — that is what makes
//! natural-key addressing unambiguous, and every operation preserves it.
//! Deleting a quiz or a question removes its descendants with it.

use vstd::prelude::*;

use crate::quiz::Answer;
use crate::quiz::AnswerView;
use crate::quiz::Question;
use crate::quiz::QuestionView;
use crate::quiz::Quiz;
use crate::quiz::QuizView;
use crate::tokens::str_eq;

verus! {

/// Why a repository operation was refused.
#[derive(Debug, Clone, Copy, PartialEq, Eq, Structural)]
pub enum RepoError {
    /// The natural-key path did not resolve to a row.
    NotFound,
    /// The operation would have broken a uniqueness invariant.
    Conflict,
}

/// The deep view of a sequence of viewable values, element for element.
pub open spec fn seq_deep<T: DeepView>(s: Seq<T>) -> Seq<T::V> {
    Seq::new(s.len(), |i: int| s[i].deep_view())
}

/// A vector's deep view is the deep view of its element sequence.
pub proof fn lemma_vec_deep<T: DeepView>(v: &Vec<T>)
    ensures
        v.deep_view() == seq_deep(v@),
{
    assert(v.deep_view() =~= seq_deep(v@));
}

/// Removing an element and re-inserting another at the same place updates
/// the deep view at that place.
pub proof fn lemma_deep_reinsert<T: DeepView>(pre: Seq<T>, post: Seq<T>, i: int, x: T)
    requires
        0 <= i < pre.len(),
        post == pre.remove(i).insert(i, x),
    ensures
        seq_deep(post) =~= seq_deep(pre).update(i, x.deep_view()),
{
    assert forall|j: int| 0 <= j && j < post.len() implies seq_deep(post)[j] == seq_deep(
        pre,
    ).update(i, x.deep_view())[j] by {
        if j < i {
            assert(post[j] == pre[j]);
        } else if j == i {
            assert(post[j] == x);
        } else {
            assert(post[j] == pre.remove(i)[j - 1]);
            assert(pre.remove(i)[j - 1] == pre[j]);
        }
    }
}

/// Removing an element removes its deep view.
pub proof fn lemma_deep_remove<T: DeepView>(pre: Seq<T>, post: Seq<T>, i: int)
    requires
        0 <= i < pre.len(),
        post == pre.remove(i),
    ensures
        seq_deep(post) =~= seq_deep(pre).remove(i),
{
    assert forall|j: int| 0 <= j && j < post.len() implies seq_deep(post)[j] == seq_deep(
        pre,
    ).remove(i)[j] by {
        if j < i {
            assert(post[j] == pre[j]);
        } else {
            assert(post[j] == pre[j + 1]);
        }
    }
}

/// Pushing an element pushes its deep view.
pub proof fn lemma_deep_push<T: DeepView>(pre: Seq<T>, post: Seq<T>, x: T)
    requires
        post == pre.push(x),
    ensures
        seq_deep(post) =~= seq_deep(pre).push(x.deep_view()),
{
    assert forall|j: int| 0 <= j && j < post.len() implies seq_deep(post)[j] == seq_deep(
        pre,
    ).push(x.deep_view())[j] by {
        if j < pre.len() {
            assert(post[j] == pre[j]);
        } else {
            assert(post[j] == x);
        }
    }
}

/// The index of the first quiz with the given title, or -1 if there is none.
pub open spec fn find_quiz(s: Seq<QuizView>, title: Seq<char>) -> int
    decreases s.len(),
{
    if s.len() <= 0 {
        -1
    } else if s[0].title == title {
        0
    } else {
        let r = find_quiz(s.skip(1), title);
        if r < 0 {
            -1
        } else {
            r + 1
        }
    }
}

/// There is a quiz with the given title.
pub open spec fn has_quiz(s: Seq<QuizView>, title: Seq<char>) -> bool {
    find_quiz(s, title) >= 0
}

/// What [`find_quiz`] returns: a first match, or -1 when nothing matches.
pub proof fn lemma_find_quiz(s: Seq<QuizView>, title: Seq<char>)
    ensures
        -1 <= find_quiz(s, title) < s.len(),
        find_quiz(s, title) >= 0 ==> s[find_quiz(s, title)].title == title,
        forall|j: int| 0 <= j < find_quiz(s, title) ==> s[j].title != title,
        find_quiz(s, title) == -1 ==> forall|j: int| 0 <= j < s.len() ==> s[j].title != title,
    decreases s.len(),
{
    if s.len() > 0 && s[0].title != title {
        lemma_find_quiz(s.skip(1), title);
        assert forall|j: int| 1 <= j < s.len() implies s.skip(1)[j - 1] == s[j] by {}
    }
}

/// A first match determines [`find_quiz`].
pub proof fn lemma_find_quiz_is(s: Seq<QuizView>, title: Seq<char>, i: int)
    requires
        0 <= i < s.len(),
        s[i].title == title,
        forall|j: int| 0 <= j < i ==> s[j].title != title,
    ensures
        find_quiz(s, title) == i,
    decreases s.len(),
{
    if i > 0 {
        assert forall|j: int| 1 <= j < s.len() implies s.skip(1)[j - 1] == s[j] by {}
        lemma_find_quiz_is(s.skip(1), title, i - 1);
    }
}

/// The index of the first question with the given text, or -1.
pub open spec fn find_question(s: Seq<QuestionView>, text: Seq<char>) -> int
    decreases s.len(),
{
    if s.len() <= 0 {
        -1
    } else if s[0].text == text {
        0
    } else {
        let r = find_question(s.skip(1), text);
        if r < 0 {
            -1
        } else {
            r + 1
        }
    }
}

/// There is a question with the given text.
pub open spec fn has_question(s: Seq<QuestionView>, text: Seq<char>) -> bool {
    find_question(s, text) >= 0
}

/// What [`find_question`] returns.
pub proof fn lemma_find_question(s: Seq<QuestionView>, text: Seq<char>)
    ensures
        -1 <= find_question(s, text) < s.len(),
        find_question(s, text) >= 0 ==> s[find_question(s, text)].text == text,
        forall|j: int| 0 <= j < find_question(s, text) ==> s[j].text != text,
        find_question(s, text) == -1 ==> forall|j: int| 0 <= j < s.len() ==> s[j].text != text,
    decreases s.len(),
{
    if s.len() > 0 && s[0].text != text {
        lemma_find_question(s.skip(1), text);
        assert forall|j: int| 1 <= j < s.len() implies s.skip(1)[j - 1] == s[j] by {}
    }
}

/// A first match determines [`find_question`].
pub proof fn lemma_find_question_is(s: Seq<QuestionView>, text: Seq<char>, i: int)
    requires
        0 <= i < s.len(),
        s[i].text == text,
        forall|j: int| 0 <= j < i ==> s[j].text != text,
    ensures
        find_question(s, text) == i,
    decreases s.len(),
{
    if i > 0 {
        assert forall|j: int| 1 <= j < s.len() implies s.skip(1)[j - 1] == s[j] by {}
        lemma_find_question_is(s.skip(1), text, i - 1);
    }
}

/// The index of the first answer with the given text, or -1.
pub open spec fn find_answer(s: Seq<AnswerView>, text: Seq<char>) -> int
    decreases s.len(),
{
    if s.len() <= 0 {
        -1
    } else if s[0].text == text {
        0
    } else {
        let r = find_answer(s.skip(1), text);
        if r < 0 {
            -1
        } else {
            r + 1
        }
    }
}

/// There is an answer with the given text.
pub open spec fn has_answer(s: Seq<AnswerView>, text: Seq<char>) -> bool {
    find_answer(s, text) >= 0
}

/// What [`find_answer`] returns.
pub proof fn lemma_find_answer(s: Seq<AnswerView>, text: Seq<char>)
    ensures
        -1 <= find_answer(s, text) < s.len(),
        find_answer(s, text) >= 0 ==> s[find_answer(s, text)].text == text,
        forall|j: int| 0 <= j < find_answer(s, text) ==> s[j].text != text,
        find_answer(s, text) == -1 ==> forall|j: int| 0 <= j < s.len() ==> s[j].text != text,
    decreases s.len(),
{
    if s.len() > 0 && s[0].text != text {
        lemma_find_answer(s.skip(1), text);
        assert forall|j: int| 1 <= j < s.len() implies s.skip(1)[j - 1] == s[j] by {}
    }
}

/// A first match determines [`find_answer`].
pub proof fn lemma_find_answer_is(s: Seq<AnswerView>, text: Seq<char>, i: int)
    requires
        0 <= i < s.len(),
        s[i].text == text,
        forall|j: int| 0 <= j < i ==> s[j].text != text,
    ensures
        find_answer(s, text) == i,
    decreases s.len(),
{
    if i > 0 {
        assert forall|j: int| 1 <= j < s.len() implies s.skip(1)[j - 1] == s[j] by {}
        lemma_find_answer_is(s.skip(1), text, i - 1);
    }
}

/// Answer texts are pairwise distinct.
pub open spec fn answers_unique(s: Seq<AnswerView>) -> bool {
    forall|i: int, j: int| 0 <= i < j < s.len() ==> s[i].text != s[j].text
}

/// Question texts are pairwise distinct.
pub open spec fn questions_unique(s: Seq<QuestionView>) -> bool {
    forall|i: int, j: int| 0 <= i < j < s.len() ==> s[i].text != s[j].text
}

/// The aggregate keeps its own invariants: question texts unique within the
/// quiz, answer texts unique within each question.
pub open spec fn quiz_wf(q: QuizView) -> bool {
    questions_unique(q.questions) && forall|i: int|
        0 <= i < q.questions.len() ==> answers_unique(#[trigger] q.questions[i].answers)
}

/// The whole store keeps its invariants: titles unique, every aggregate
/// well-formed.
pub open spec fn store_wf(s: Seq<QuizView>) -> bool {
    (forall|i: int, j: int| 0 <= i < j < s.len() ==> s[i].title != s[j].title) && forall|i: int|
        0 <= i < s.len() ==> quiz_wf(#[trigger] s[i])
}

/// The in-memory quiz repository. Its view is the ordered sequence of stored
/// aggregates; insertion order is preserved, children are only ever added or
/// removed individually after a commit, never reordered.
#[derive(Debug)]
pub struct QuizStore {
    quizzes: Vec<Quiz>,
}

impl View for QuizStore {
    type V = Seq<QuizView>;

    closed spec fn view(&self) -> Seq<QuizView> {
        self.quizzes.deep_view()
    }
}

impl QuizStore {
    /// The store keeps its invariants.
    pub open spec fn wf(&self) -> bool {
        store_wf(self@)
    }

    /// An empty store.
    pub fn new() -> (r: QuizStore)
        ensures
            r@ == Seq::<QuizView>::empty(),
            r.wf(),
    {
        let v: Vec<Quiz> = Vec::new();
        proof {
            assert(v.deep_view() =~= Seq::<QuizView>::empty());
        }
        QuizStore { quizzes: v }
    }

    /// The position of the quiz with the given title, if any.
    fn quiz_pos(&self, title: &str) -> (r: Option<usize>)
        ensures
            match r {
                Some(i) => i as int == find_quiz(self@, title@) && (i as int) < self@.len(),
                None => find_quiz(self@, title@) == -1,
            },
    {
        proof {
            lemma_vec_deep(&self.quizzes);
        }
        let mut i: usize = 0;
        while i < self.quizzes.len()
            invariant
                i <= self.quizzes.len(),
                self@.len() == self.quizzes@.len(),
                forall|j: int| 0 <= j < i as int ==> self@[j].title != title@,
                forall|j: int|
                    0 <= j < self@.len() ==> #[trigger] self@[j] == self.quizzes@[j].deep_view(),
            decreases self.quizzes.len() - i,
        {
            if str_eq(self.quizzes[i].title.as_str(), title) {
                proof {
                    lemma_find_quiz_is(self@, title@, i as int);
                }
                return Some(i);
            }
            i = i + 1;
        }
        proof {
            lemma_find_quiz(self@, title@);
        }
        None
    }

    /// Loads the quiz with the given title as one consistent aggregate;
    /// a distinguished "not found" outcome when there is none.
    pub fn retreive_quiz(&self, title: &str) -> (r: Option<Quiz>)
        ensures
            match r {
                Some(q) => has_quiz(self@, title@) && q@ == self@[find_quiz(self@, title@)],
                None => !has_quiz(self@, title@),
            },
    {
        match self.quiz_pos(title) {
            Some(i) => {
                proof {
                    lemma_vec_deep(&self.quizzes);
                }
                let q = self.quizzes[i].duplicate();
                proof {
                    assert(q@ == self.quizzes@[i as int].deep_view());
                }
                Some(q)
            },
            None => None,
        }
    }

    /// The stored titles, in storage order.
    pub fn retreive_all_quiz_names(&self) -> (r: Vec<String>)
        ensures
            r.deep_view() == self@.map_values(|q: QuizView| q.title),
    {
        proof {
            lemma_vec_deep(&self.quizzes);
        }
        let mut names: Vec<String> = Vec::new();
        let mut i: usize = 0;
        while i < self.quizzes.len()
            invariant
                i <= self.quizzes.len(),
                names@.len() == i as int,
                self@.len() == self.quizzes@.len(),
                forall|j: int| 0 <= j < i as int ==> #[trigger] names@[j]@ == self@[j].title,
                forall|j: int|
                    0 <= j < self@.len() ==> #[trigger] self@[j] == self.quizzes@[j].deep_view(),
            decreases self.quizzes.len() - i,
        {
            let name = self.quizzes[i].title().clone();
            names.push(name);
            i = i + 1;
        }
        proof {
            assert forall|j: int| 0 <= j && j < names@.len() implies names.deep_view()[j]
                == self@.map_values(|q: QuizView| q.title)[j] by {
                assert(names.deep_view()[j] == names@[j]@);
            }
            assert(names.deep_view() =~= self@.map_values(|q: QuizView| q.title));
        }
        names
    }

    /// Commits a fully formed aggregate as one unit: all of it or nothing.
    /// Refused when the title is already taken or the aggregate repeats a
    /// question or answer text within one parent.
    pub fn create_quiz(&mut self, quiz: Quiz) -> (r: Result<String, RepoError>)
        requires
            old(self).wf(),
        ensures
            final(self).wf(),
            match r {
                Ok(name) => !has_quiz(old(self)@, quiz@.title) && quiz_wf(quiz@) && final(self)@
                    == old(self)@.push(quiz@) && name@ == quiz@.title,
                Err(e) => e == RepoError::Conflict && final(self)@ == old(self)@ && (has_quiz(
                    old(self)@,
                    quiz@.title,
                ) || !quiz_wf(quiz@)),
            },
    {
        match self.quiz_pos(quiz.title.as_str()) {
            Some(_) => Err(RepoError::Conflict),
            None => {
                if !quiz_value_wf(&quiz) {
                    return Err(RepoError::Conflict);
                }
                let name = quiz.title.clone();
                proof {
                    lemma_vec_deep(&self.quizzes);
                }
                let ghost pre = self.quizzes@;
                self.quizzes.push(quiz);
                proof {
                    lemma_deep_push(pre, self.quizzes@, self.quizzes@[self.quizzes@.len() - 1]);
                    lemma_vec_deep(&self.quizzes);
                    lemma_find_quiz(old(self)@, self@[self@.len() - 1].title);
                    assert forall|i: int, j: int|
                        0 <= i < j < self@.len() implies self@[i].title != self@[j].title by {
                        if j < self@.len() - 1 {
                            assert(self@[i] == old(self)@[i]);
                            assert(self@[j] == old(self)@[j]);
                        } else {
                            assert(self@[i] == old(self)@[i]);
                        }
                    }
                    assert forall|i: int| 0 <= i < self@.len() implies quiz_wf(
                        #[trigger] self@[i],
                    ) by {
                        if i < self@.len() - 1 {
                            assert(self@[i] == old(self)@[i]);
                        }
                    }
                }
                Ok(name)
            },
        }
    }

    /// Deletes the quiz with the given title, cascading over its questions
    /// and answers; deleting an absent title changes nothing. Echoes the
    /// title either way.
    pub fn delete_quiz(&mut self, title: &str) -> (r: String)
        requires
            old(self).wf(),
        ensures
            final(self).wf(),
            r@ == title@,
            has_quiz(old(self)@, title@) ==> final(self)@ == old(self)@.remove(
                find_quiz(old(self)@, title@),
            ),
            !has_quiz(old(self)@, title@) ==> final(self)@ == old(self)@,
    {
        match self.quiz_pos(title) {
            Some(i) => {
                let ghost pre = self.quizzes@;
                let _removed = self.quizzes.remove(i);
                proof {
                    assert(old(self)@ =~= seq_deep(pre));
                    lemma_vec_deep(&self.quizzes);
                    lemma_deep_remove(pre, self.quizzes@, i as int);
                    lemma_wf_remove(old(self)@, i as int);
                }
                title.to_owned()
            },
            None => title.to_owned(),
        }
    }

    /// Renames the quiz addressed by its current title. Refused when the
    /// title resolves to nothing, or when the new title is already taken by
    /// another quiz.
    pub fn edit_name(&mut self, title: &str, new: &str) -> (r: Result<String, RepoError>)
        requires
            old(self).wf(),
        ensures
            final(self).wf(),
            match r {
                Ok(n) => has_quiz(old(self)@, title@) && (new@ == title@ || !has_quiz(
                    old(self)@,
                    new@,
                )) && n@ == new@ && final(self)@ == old(self)@.update(
                    find_quiz(old(self)@, title@),
                    (QuizView {
                        title: new@,
                        ..old(self)@[find_quiz(old(self)@, title@)]
                    }),
                ),
                Err(e) => final(self)@ == old(self)@ && ((e == RepoError::NotFound && !has_quiz(
                    old(self)@,
                    title@,
                )) || (e == RepoError::Conflict && has_quiz(old(self)@, title@) && new@ != title@
                    && has_quiz(old(self)@, new@))),
            },
    {
        let i = match self.quiz_pos(title) {
            None => {
                return Err(RepoError::NotFound);
            },
            Some(i) => i,
        };
        proof {
            lemma_find_quiz(self@, title@);
        }
        match self.quiz_pos(new) {
            Some(k) => {
                if k != i {
                    proof {
                        lemma_find_quiz(self@, new@);
                        assert(self@[i as int].title == title@);
                        assert(self@[k as int].title == new@);
                    }
                    return Err(RepoError::Conflict);
                }
            },
            None => {},
        }
        let ghost pre = self.quizzes@;
        let ghost target = (QuizView { title: new@, ..old(self)@[i as int] });
        let mut q = self.quizzes.remove(i);
        q.title = new.to_owned();
        proof {
            assert(old(self)@ =~= seq_deep(pre));
            assert(q@ == target);
        }
        self.quizzes.insert(i, q);
        proof {
            lemma_vec_deep(&self.quizzes);
            lemma_deep_reinsert(pre, self.quizzes@, i as int, self.quizzes@[i as int]);
            assert(self@ =~= old(self)@.update(i as int, target));
            lemma_find_quiz(old(self)@, new@);
            assert(quiz_wf(target));
            lemma_wf_update(old(self)@, i as int, target);
        }
        Ok(new.to_owned())
    }

    /// Replaces the description of the quiz addressed by its title. Refused
    /// when the title resolves to nothing.
    pub fn edit_description(&mut self, title: &str, new: &str) -> (r: Result<String, RepoError>)
        requires
            old(self).wf(),
        ensures
            final(self).wf(),
            match r {
                Ok(n) => has_quiz(old(self)@, title@) && n@ == new@ && final(self)@
                    == old(self)@.update(
                    find_quiz(old(self)@, title@),
                    (QuizView {
                        description: new@,
                        ..old(self)@[find_quiz(old(self)@, title@)]
                    }),
                ),
                Err(e) => e == RepoError::NotFound && !has_quiz(old(self)@, title@)
                    && final(self)@ == old(self)@,
            },
    {
        let i = match self.quiz_pos(title) {
            None => {
                return Err(RepoError::NotFound);
            },
            Some(i) => i,
        };
        proof {
            lemma_find_quiz(self@, title@);
        }
        let ghost pre = self.quizzes@;
        let ghost target = (QuizView { description: new@, ..old(self)@[i as int] });
        let mut q = self.quizzes.remove(i);
        q.description = new.to_owned();
        proof {
            assert(old(self)@ =~= seq_deep(pre));
            assert(q@ == target);
        }
        self.quizzes.insert(i, q);
        proof {
            lemma_vec_deep(&self.quizzes);
            lemma_deep_reinsert(pre, self.quizzes@, i as int, self.quizzes@[i as int]);
            assert(self@ =~= old(self)@.update(i as int, target));
            assert(quiz_wf(target));
            lemma_wf_update(old(self)@, i as int, target);
        }
        Ok(new.to_owned())
    }

    /// Loads the question addressed by (quiz title, question text) with its
    /// answers; a distinguished "not found" outcome when the path resolves
    /// to nothing.
    pub fn retreive_question(&self, quiz_title: &str, question_text: &str) -> (r: Option<Question>)
        ensures
            match r {
                Some(q) => has_question_path(self@, quiz_title@, question_text@) && q@
                    == question_in(self@, quiz_title@, question_text@),
                None => !has_question_path(self@, quiz_title@, question_text@),
            },
    {
        let i = match self.quiz_pos(quiz_title) {
            None => {
                return None;
            },
            Some(i) => i,
        };
        proof {
            lemma_vec_deep(&self.quizzes);
        }
        let q = &self.quizzes[i];
        proof {
            assert(q@ == self@[i as int]);
        }
        match question_pos(q, question_text) {
            None => None,
            Some(j) => {
                proof {
                    lemma_vec_deep(&q.questions);
                }
                let found = q.questions[j].duplicate();
                proof {
                    assert(found@ == q@.questions[j as int]);
                }
                Some(found)
            },
        }
    }

    /// The question texts of the given quiz, in storage order; empty when the
    /// title resolves to nothing.
    pub fn retreive_all_question_names(&self, quiz_title: &str) -> (r: Vec<String>)
        ensures
            has_quiz(self@, quiz_title@) ==> r.deep_view() == quiz_at(
                self@,
                quiz_title@,
            ).questions.map_values(|q: QuestionView| q.text),
            !has_quiz(self@, quiz_title@) ==> r@.len() == 0,
    {
        let i = match self.quiz_pos(quiz_title) {
            None => {
                let empty: Vec<String> = Vec::new();
                return empty;
            },
            Some(i) => i,
        };
        proof {
            lemma_vec_deep(&self.quizzes);
        }
        let q = &self.quizzes[i];
        proof {
            assert(q@ == self@[i as int]);
            lemma_vec_deep(&q.questions);
        }
        let mut names: Vec<String> = Vec::new();
        let mut j: usize = 0;
        while j < q.questions.len()
            invariant
                j <= q.questions.len(),
                names@.len() == j as int,
                q@.questions.len() == q.questions@.len(),
                forall|p: int| 0 <= p < j as int ==> #[trigger] names@[p]@ == q@.questions[p].text,
                forall|p: int|
                    0 <= p < q.questions@.len() ==> #[trigger] q@.questions[p]
                        == q.questions@[p].deep_view(),
            decreases q.questions.len() - j,
        {
            let name = q.questions[j].text();
            names.push(name);
            j = j + 1;
        }
        proof {
            assert forall|p: int| 0 <= p && p < names@.len() implies names.deep_view()[p]
                == q@.questions.map_values(|t: QuestionView| t.text)[p] by {
                assert(names.deep_view()[p] == names@[p]@);
            }
            assert(names.deep_view() =~= q@.questions.map_values(|t: QuestionView| t.text));
        }
        names
    }

    /// Deletes the question addressed by (quiz title, question text),
    /// cascading over its answers. Refused when the path resolves to
    /// nothing.
    pub fn delete_question(&mut self, quiz_title: &str, question_text: &str) -> (r: Result<
        String,
        RepoError,
    >)
        requires
            old(self).wf(),
        ensures
            final(self).wf(),
            match r {
                Ok(t) => has_question_path(old(self)@, quiz_title@, question_text@) && t@
                    == question_text@ && final(self)@ == old(self)@.update(
                    find_quiz(old(self)@, quiz_title@),
                    (QuizView {
                        questions: quiz_at(old(self)@, quiz_title@).questions.remove(
                            find_question(
                                quiz_at(old(self)@, quiz_title@).questions,
                                question_text@,
                            ),
                        ),
                        ..quiz_at(old(self)@, quiz_title@)
                    }),
                ),
                Err(e) => e == RepoError::NotFound && !has_question_path(
                    old(self)@,
                    quiz_title@,
                    question_text@,
                ) && final(self)@ == old(self)@,
            },
    {
        let i = match self.quiz_pos(quiz_title) {
            None => {
                return Err(RepoError::NotFound);
            },
            Some(i) => i,
        };
        proof {
            lemma_find_quiz(self@, quiz_title@);
            assert(quiz_wf(old(self)@[i as int]));
        }
        let ghost pre = self.quizzes@;
        let mut q = self.quizzes.remove(i);
        proof {
            assert(old(self)@ =~= seq_deep(pre));
            assert(q@ == old(self)@[i as int]);
        }
        let j = match question_pos(&q, question_text) {
            None => {
                self.quizzes.insert(i, q);
                proof {
                    lemma_vec_deep(&self.quizzes);
                    lemma_deep_reinsert(pre, self.quizzes@, i as int, self.quizzes@[i as int]);
                    assert(self@ =~= old(self)@);
                }
                return Err(RepoError::NotFound);
            },
            Some(j) => j,
        };
        let ghost target = (QuizView {
            questions: old(self)@[i as int].questions.remove(j as int),
            ..old(self)@[i as int]
        });
        let ghost qspre = q.questions@;
        let _removed = q.questions.remove(j);
        proof {
            assert(old(self)@[i as int].questions =~= seq_deep(qspre));
            lemma_vec_deep(&q.questions);
            lemma_deep_remove(qspre, q.questions@, j as int);
            assert(q@ == target);
        }
        self.quizzes.insert(i, q);
        proof {
            lemma_vec_deep(&self.quizzes);
            lemma_deep_reinsert(pre, self.quizzes@, i as int, self.quizzes@[i as int]);
            assert(self@ =~= old(self)@.update(i as int, target));
            lemma_quiz_wf_remove_question(old(self)@[i as int], j as int);
            lemma_wf_update(old(self)@, i as int, target);
        }
        Ok(question_text.to_owned())
    }

    /// Renames the question addressed by (quiz title, question text).
    /// Refused when the path resolves to nothing, or when the new text is
    /// already taken by another question of the same quiz.
    pub fn edit_text(&mut self, quiz_title: &str, question_text: &str, new: &str) -> (r: Result<
        String,
        RepoError,
    >)
        requires
            old(self).wf(),
        ensures
            final(self).wf(),
            match r {
                Ok(n) => has_question_path(old(self)@, quiz_title@, question_text@) && (new@
                    == question_text@ || !has_question(
                    quiz_at(old(self)@, quiz_title@).questions,
                    new@,
                )) && n@ == new@ && final(self)@ == old(self)@.update(
                    find_quiz(old(self)@, quiz_title@),
                    (QuizView {
                        questions: quiz_at(old(self)@, quiz_title@).questions.update(
                            find_question(
                                quiz_at(old(self)@, quiz_title@).questions,
                                question_text@,
                            ),
                            (QuestionView {
                                text: new@,
                                ..question_in(old(self)@, quiz_title@, question_text@)
                            }),
                        ),
                        ..quiz_at(old(self)@, quiz_title@)
                    }),
                ),
                Err(e) => final(self)@ == old(self)@ && ((e == RepoError::NotFound
                    && !has_question_path(old(self)@, quiz_title@, question_text@)) || (e
                    == RepoError::Conflict && has_question_path(
                    old(self)@,
                    quiz_title@,
                    question_text@,
                ) && new@ != question_text@ && has_question(
                    quiz_at(old(self)@, quiz_title@).questions,
                    new@,
                ))),
            },
    {
        let i = match self.quiz_pos(quiz_title) {
            None => {
                return Err(RepoError::NotFound);
            },
            Some(i) => i,
        };
        proof {
            lemma_find_quiz(self@, quiz_title@);
            assert(quiz_wf(old(self)@[i as int]));
        }
        let ghost pre = self.quizzes@;
        let mut q = self.quizzes.remove(i);
        proof {
            assert(old(self)@ =~= seq_deep(pre));
            assert(q@ == old(self)@[i as int]);
        }
        let j = match question_pos(&q, question_text) {
            None => {
                self.quizzes.insert(i, q);
                proof {
                    lemma_vec_deep(&self.quizzes);
                    lemma_deep_reinsert(pre, self.quizzes@, i as int, self.quizzes@[i as int]);
                    assert(self@ =~= old(self)@);
                }
                return Err(RepoError::NotFound);
            },
            Some(j) => j,
        };
        proof {
            lemma_find_question(q@.questions, question_text@);
        }
        match question_pos(&q, new) {
            Some(k) => {
                if k != j {
                    proof {
                        lemma_find_question(q@.questions, new@);
                        assert(q@.questions[j as int].text == question_text@);
                        assert(q@.questions[k as int].text == new@);
                    }
                    self.quizzes.insert(i, q);
                    proof {
                        lemma_vec_deep(&self.quizzes);
                        lemma_deep_reinsert(pre, self.quizzes@, i as int, self.quizzes@[i as int]);
                        assert(self@ =~= old(self)@);
                    }
                    return Err(RepoError::Conflict);
                }
            },
            None => {},
        }
        let ghost nq = (QuestionView {
            text: new@,
            ..question_in(old(self)@, quiz_title@, question_text@)
        });
        let ghost target = (QuizView {
            questions: old(self)@[i as int].questions.update(j as int, nq),
            ..old(self)@[i as int]
        });
        let ghost qspre = q.questions@;
        let mut qu = q.questions.remove(j);
        qu.text = new.to_owned();
        proof {
            assert(old(self)@[i as int].questions =~= seq_deep(qspre));
            assert(qu@ == nq);
        }
        q.questions.insert(j, qu);
        proof {
            lemma_vec_deep(&q.questions);
            lemma_deep_reinsert(qspre, q.questions@, j as int, q.questions@[j as int]);
            assert(q@ == target);
        }
        self.quizzes.insert(i, q);
        proof {
            lemma_vec_deep(&self.quizzes);
            lemma_deep_reinsert(pre, self.quizzes@, i as int, self.quizzes@[i as int]);
            assert(self@ =~= old(self)@.update(i as int, target));
            lemma_find_question(old(self)@[i as int].questions, new@);
            lemma_quiz_wf_update_question(old(self)@[i as int], j as int, nq);
            lemma_wf_update(old(self)@, i as int, target);
        }
        Ok(new.to_owned())
    }

    /// Adds a question with no answers yet to the quiz addressed by its
    /// title. Refused when the title resolves to nothing or the text is
    /// already taken within that quiz.
    pub fn create_question(&mut self, quiz_title: &str, text: &str) -> (r: Result<
        String,
        RepoError,
    >)
        requires
            old(self).wf(),
        ensures
            final(self).wf(),
            match r {
                Ok(t) => has_quiz(old(self)@, quiz_title@) && !has_question(
                    quiz_at(old(self)@, quiz_title@).questions,
                    text@,
                ) && t@ == text@ && final(self)@ == old(self)@.update(
                    find_quiz(old(self)@, quiz_title@),
                    (QuizView {
                        questions: quiz_at(old(self)@, quiz_title@).questions.push(
                            (QuestionView { text: text@, answers: Seq::<AnswerView>::empty() }),
                        ),
                        ..quiz_at(old(self)@, quiz_title@)
                    }),
                ),
                Err(e) => final(self)@ == old(self)@ && ((e == RepoError::NotFound && !has_quiz(
                    old(self)@,
                    quiz_title@,
                )) || (e == RepoError::Conflict && has_quiz(old(self)@, quiz_title@)
                    && has_question(quiz_at(old(self)@, quiz_title@).questions, text@))),
            },
    {
        let i = match self.quiz_pos(quiz_title) {
            None => {
                return Err(RepoError::NotFound);
            },
            Some(i) => i,
        };
        proof {
            lemma_find_quiz(self@, quiz_title@);
            assert(quiz_wf(old(self)@[i as int]));
        }
        let ghost pre = self.quizzes@;
        let mut q = self.quizzes.remove(i);
        proof {
            assert(old(self)@ =~= seq_deep(pre));
            assert(q@ == old(self)@[i as int]);
        }
        match question_pos(&q, text) {
            Some(_) => {
                self.quizzes.insert(i, q);
                proof {
                    lemma_vec_deep(&self.quizzes);
                    lemma_deep_reinsert(pre, self.quizzes@, i as int, self.quizzes@[i as int]);
                    assert(self@ =~= old(self)@);
                }
                return Err(RepoError::Conflict);
            },
            None => {},
        }
        proof {
            lemma_find_question(q@.questions, text@);
        }
        let ghost nq = (QuestionView { text: text@, answers: Seq::<AnswerView>::empty() });
        let ghost target = (QuizView {
            questions: old(self)@[i as int].questions.push(nq),
            ..old(self)@[i as int]
        });
        let ghost qspre = q.questions@;
        let new_question = Question::new(text.to_owned(), None);
        proof {
            assert(new_question@ == nq);
        }
        q.questions.push(new_question);
        proof {
            assert(old(self)@[i as int].questions =~= seq_deep(qspre));
            lemma_vec_deep(&q.questions);
            lemma_deep_push(qspre, q.questions@, q.questions@[q.questions@.len() - 1]);
            assert(q@ == target);
        }
        self.quizzes.insert(i, q);
        proof {
            lemma_vec_deep(&self.quizzes);
            lemma_deep_reinsert(pre, self.quizzes@, i as int, self.quizzes@[i as int]);
            assert(self@ =~= old(self)@.update(i as int, target));
            lemma_quiz_wf_push_question(old(self)@[i as int], nq);
            lemma_wf_update(old(self)@, i as int, target);
        }
        Ok(text.to_owned())
    }

    /// Loads the answer addressed by (quiz title, question text, answer
    /// text); a distinguished "not found" outcome when the path resolves to
    /// nothing.
    pub fn retreive_answer(&self, quiz_title: &str, question_text: &str, answer_text: &str) -> (r:
        Option<Answer>)
        ensures
            match r {
                Some(a) => has_answer_path(self@, quiz_title@, question_text@, answer_text@) && a@
                    == answer_in(self@, quiz_title@, question_text@, answer_text@),
                None => !has_answer_path(self@, quiz_title@, question_text@, answer_text@),
            },
    {
        let i = match self.quiz_pos(quiz_title) {
            None => {
                return None;
            },
            Some(i) => i,
        };
        proof {
            lemma_vec_deep(&self.quizzes);
        }
        let q = &self.quizzes[i];
        proof {
            assert(q@ == self@[i as int]);
        }
        let j = match question_pos(q, question_text) {
            None => {
                return None;
            },
            Some(j) => j,
        };
        proof {
            lemma_vec_deep(&q.questions);
        }
        let qu = &q.questions[j];
        proof {
            assert(qu@ == q@.questions[j as int]);
        }
        match answer_pos(qu, answer_text) {
            None => None,
            Some(k) => {
                proof {
                    lemma_vec_deep(&qu.answers);
                }
                let found = qu.answers[k].duplicate();
                proof {
                    assert(found@ == qu@.answers[k as int]);
                }
                Some(found)
            },
        }
    }

    /// The answer texts of the given question, in storage order; empty when
    /// the path resolves to nothing.
    pub fn retreive_all_answers_names(&self, quiz_title: &str, question_text: &str) -> (r: Vec<
        String,
    >)
        ensures
            has_question_path(self@, quiz_title@, question_text@) ==> r.deep_view()
                == question_in(self@, quiz_title@, question_text@).answers.map_values(
                |a: AnswerView| a.text,
            ),
            !has_question_path(self@, quiz_title@, question_text@) ==> r@.len() == 0,
    {
        let i = match self.quiz_pos(quiz_title) {
            None => {
                let empty: Vec<String> = Vec::new();
                return empty;
            },
            Some(i) => i,
        };
        proof {
            lemma_vec_deep(&self.quizzes);
        }
        let q = &self.quizzes[i];
        proof {
            assert(q@ == self@[i as int]);
        }
        let j = match question_pos(q, question_text) {
            None => {
                let empty: Vec<String> = Vec::new();
                return empty;
            },
            Some(j) => j,
        };
        proof {
            lemma_vec_deep(&q.questions);
        }
        let qu = &q.questions[j];
        proof {
            assert(qu@ == q@.questions[j as int]);
            lemma_vec_deep(&qu.answers);
        }
        let mut names: Vec<String> = Vec::new();
        let mut k: usize = 0;
        while k < qu.answers.len()
            invariant
                k <= qu.answers.len(),
                names@.len() == k as int,
                qu@.answers.len() == qu.answers@.len(),
                forall|p: int| 0 <= p < k as int ==> #[trigger] names@[p]@ == qu@.answers[p].text,
                forall|p: int|
                    0 <= p < qu.answers@.len() ==> #[trigger] qu@.answers[p]
                        == qu.answers@[p].deep_view(),
            decreases qu.answers.len() - k,
        {
            let name = qu.answers[k].text();
            names.push(name);
            k = k + 1;
        }
        proof {
            assert forall|p: int| 0 <= p && p < names@.len() implies names.deep_view()[p]
                == qu@.answers.map_values(|a: AnswerView| a.text)[p] by {
                assert(names.deep_view()[p] == names@[p]@);
            }
            assert(names.deep_view() =~= qu@.answers.map_values(|a: AnswerView| a.text));
        }
        names
    }

    /// Deletes the answer addressed by (quiz title, question text, answer
    /// text). Refused when the path resolves to nothing.
    pub fn delete_answer(&mut self, quiz_title: &str, question_text: &str, answer_text: &str) -> (r:
        Result<String, RepoError>)
        requires
            old(self).wf(),
        ensures
            final(self).wf(),
            match r {
                Ok(t) => has_answer_path(old(self)@, quiz_title@, question_text@, answer_text@)
                    && t@ == answer_text@ && final(self)@ == old(self)@.update(
                    find_quiz(old(self)@, quiz_title@),
                    (QuizView {
                        questions: quiz_at(old(self)@, quiz_title@).questions.update(
                            find_question(
                                quiz_at(old(self)@, quiz_title@).questions,
                                question_text@,
                            ),
                            (QuestionView {
                                answers: question_in(
                                    old(self)@,
                                    quiz_title@,
                                    question_text@,
                                ).answers.remove(
                                    find_answer(
                                        question_in(
                                            old(self)@,
                                            quiz_title@,
                                            question_text@,
                                        ).answers,
                                        answer_text@,
                                    ),
                                ),
                                ..question_in(old(self)@, quiz_title@, question_text@)
                            }),
                        ),
                        ..quiz_at(old(self)@, quiz_title@)
                    }),
                ),
                Err(e) => e == RepoError::NotFound && !has_answer_path(
                    old(self)@,
                    quiz_title@,
                    question_text@,
                    answer_text@,
                ) && final(self)@ == old(self)@,
            },
    {
        let i = match self.quiz_pos(quiz_title) {
            None => {
                return Err(RepoError::NotFound);
            },
            Some(i) => i,
        };
        proof {
            lemma_find_quiz(self@, quiz_title@);
            assert(quiz_wf(old(self)@[i as int]));
        }
        let ghost pre = self.quizzes@;
        let mut q = self.quizzes.remove(i);
        proof {
            assert(old(self)@ =~= seq_deep(pre));
            assert(q@ == old(self)@[i as int]);
        }
        let j = match question_pos(&q, question_text) {
            None => {
                self.quizzes.insert(i, q);
                proof {
                    lemma_vec_deep(&self.quizzes);
                    lemma_deep_reinsert(pre, self.quizzes@, i as int, self.quizzes@[i as int]);
                    assert(self@ =~= old(self)@);
                }
                return Err(RepoError::NotFound);
            },
            Some(j) => j,
        };
        proof {
            lemma_find_question(q@.questions, question_text@);
        }
        let ghost qspre = q.questions@;
        let mut qu = q.questions.remove(j);
        proof {
            assert(old(self)@[i as int].questions =~= seq_deep(qspre));
            assert(qu@ == old(self)@[i as int].questions[j as int]);
        }
        let k = match answer_pos(&qu, answer_text) {
            None => {
                q.questions.insert(j, qu);
                proof {
                    lemma_vec_deep(&q.questions);
                    lemma_deep_reinsert(qspre, q.questions@, j as int, q.questions@[j as int]);
                    assert(q@.questions =~= old(self)@[i as int].questions);
                    assert(q@ == old(self)@[i as int]);
                }
                self.quizzes.insert(i, q);
                proof {
                    lemma_vec_deep(&self.quizzes);
                    lemma_deep_reinsert(pre, self.quizzes@, i as int, self.quizzes@[i as int]);
                    assert(self@ =~= old(self)@);
                }
                return Err(RepoError::NotFound);
            },
            Some(k) => k,
        };
        proof {
            lemma_find_answer(qu@.answers, answer_text@);
        }
        let ghost nqu = (QuestionView {
            answers: old(self)@[i as int].questions[j as int].answers.remove(k as int),
            ..old(self)@[i as int].questions[j as int]
        });
        let ghost target = (QuizView {
            questions: old(self)@[i as int].questions.update(j as int, nqu),
            ..old(self)@[i as int]
        });
        let ghost anspre = qu.answers@;
        let _removed = qu.answers.remove(k);
        proof {
            assert(old(self)@[i as int].questions[j as int].answers =~= seq_deep(anspre));
            lemma_vec_deep(&qu.answers);
            lemma_deep_remove(anspre, qu.answers@, k as int);
            assert(qu@ == nqu);
        }
        q.questions.insert(j, qu);
        proof {
            lemma_vec_deep(&q.questions);
            lemma_deep_reinsert(qspre, q.questions@, j as int, q.questions@[j as int]);
            assert(q@ == target);
        }
        self.quizzes.insert(i, q);
        proof {
            lemma_vec_deep(&self.quizzes);
            lemma_deep_reinsert(pre, self.quizzes@, i as int, self.quizzes@[i as int]);
            assert(self@ =~= old(self)@.update(i as int, target));
            assert(answers_unique(old(self)@[i as int].questions[j as int].answers));
            lemma_answers_unique_remove(
                old(self)@[i as int].questions[j as int].answers,
                k as int,
            );
            lemma_quiz_wf_update_question(old(self)@[i as int], j as int, nqu);
            lemma_wf_update(old(self)@, i as int, target);
        }
        Ok(answer_text.to_owned())
    }

    /// Renames the answer addressed by (quiz title, question text, answer
    /// text). Refused when the path resolves to nothing, or when the new
    /// text is already taken within the same question.
    pub fn edit_answer_text(
        &mut self,
        quiz_title: &str,
        question_text: &str,
        answer_text: &str,
        new: &str,
    ) -> (r: Result<String, RepoError>)
        requires
            old(self).wf(),
        ensures
            final(self).wf(),
            match r {
                Ok(n) => has_answer_path(old(self)@, quiz_title@, question_text@, answer_text@)
                    && (new@ == answer_text@ || !has_answer(
                    question_in(old(self)@, quiz_title@, question_text@).answers,
                    new@,
                )) && n@ == new@ && final(self)@ == old(self)@.update(
                    find_quiz(old(self)@, quiz_title@),
                    (QuizView {
                        questions: quiz_at(old(self)@, quiz_title@).questions.update(
                            find_question(
                                quiz_at(old(self)@, quiz_title@).questions,
                                question_text@,
                            ),
                            (QuestionView {
                                answers: question_in(
                                    old(self)@,
                                    quiz_title@,
                                    question_text@,
                                ).answers.update(
                                    find_answer(
                                        question_in(
                                            old(self)@,
                                            quiz_title@,
                                            question_text@,
                                        ).answers,
                                        answer_text@,
                                    ),
                                    (AnswerView {
                                        text: new@,
                                        ..answer_in(
                                            old(self)@,
                                            quiz_title@,
                                            question_text@,
                                            answer_text@,
                                        )
                                    }),
                                ),
                                ..question_in(old(self)@, quiz_title@, question_text@)
                            }),
                        ),
                        ..quiz_at(old(self)@, quiz_title@)
                    }),
                ),
                Err(e) => final(self)@ == old(self)@ && ((e == RepoError::NotFound
                    && !has_answer_path(old(self)@, quiz_title@, question_text@, answer_text@))
                    || (e == RepoError::Conflict && has_answer_path(
                    old(self)@,
                    quiz_title@,
                    question_text@,
                    answer_text@,
                ) && new@ != answer_text@ && has_answer(
                    question_in(old(self)@, quiz_title@, question_text@).answers,
                    new@,
                ))),
            },
    {
        let i = match self.quiz_pos(quiz_title) {
            None => {
                return Err(RepoError::NotFound);
            },
            Some(i) => i,
        };
        proof {
            lemma_find_quiz(self@, quiz_title@);
            assert(quiz_wf(old(self)@[i as int]));
        }
        let ghost pre = self.quizzes@;
        let mut q = self.quizzes.remove(i);
        proof {
            assert(old(self)@ =~= seq_deep(pre));
            assert(q@ == old(self)@[i as int]);
        }
        let j = match question_pos(&q, question_text) {
            None => {
                self.quizzes.insert(i, q);
                proof {
                    lemma_vec_deep(&self.quizzes);
                    lemma_deep_reinsert(pre, self.quizzes@, i as int, self.quizzes@[i as int]);
                    assert(self@ =~= old(self)@);
                }
                return Err(RepoError::NotFound);
            },
            Some(j) => j,
        };
        proof {
            lemma_find_question(q@.questions, question_text@);
        }
        let ghost qspre = q.questions@;
        let mut qu = q.questions.remove(j);
        proof {
            assert(old(self)@[i as int].questions =~= seq_deep(qspre));
            assert(qu@ == old(self)@[i as int].questions[j as int]);
        }
        let k = match answer_pos(&qu, answer_text) {
            None => {
                q.questions.insert(j, qu);
                proof {
                    lemma_vec_deep(&q.questions);
                    lemma_deep_reinsert(qspre, q.questions@, j as int, q.questions@[j as int]);
                    assert(q@.questions =~= old(self)@[i as int].questions);
                    assert(q@ == old(self)@[i as int]);
                }
                self.quizzes.insert(i, q);
                proof {
                    lemma_vec_deep(&self.quizzes);
                    lemma_deep_reinsert(pre, self.quizzes@, i as int, self.quizzes@[i as int]);
                    assert(self@ =~= old(self)@);
                }
                return Err(RepoError::NotFound);
            },
            Some(k) => k,
        };
        proof {
            lemma_find_answer(qu@.answers, answer_text@);
            assert(answers_unique(old(self)@[i as int].questions[j as int].answers));
        }
        match answer_pos(&qu, new) {
            Some(m) => {
                if m != k {
                    proof {
                        lemma_find_answer(qu@.answers, new@);
                        assert(qu@.answers[k as int].text == answer_text@);
                        assert(qu@.answers[m as int].text == new@);
                    }
                    q.questions.insert(j, qu);
                    proof {
                        lemma_vec_deep(&q.questions);
                        lemma_deep_reinsert(qspre, q.questions@, j as int, q.questions@[j as int]);
                        assert(q@.questions =~= old(self)@[i as int].questions);
                        assert(q@ == old(self)@[i as int]);
                    }
                    self.quizzes.insert(i, q);
                    proof {
                        lemma_vec_deep(&self.quizzes);
                        lemma_deep_reinsert(pre, self.quizzes@, i as int, self.quizzes@[i as int]);
                        assert(self@ =~= old(self)@);
                    }
                    return Err(RepoError::Conflict);
                }
            },
            None => {},
        }
        let ghost nqa = (AnswerView {
            text: new@,
            ..answer_in(old(self)@, quiz_title@, question_text@, answer_text@)
        });
        let ghost nqu = (QuestionView {
            answers: old(self)@[i as int].questions[j as int].answers.update(k as int, nqa),
            ..old(self)@[i as int].questions[j as int]
        });
        let ghost target = (QuizView {
            questions: old(self)@[i as int].questions.update(j as int, nqu),
            ..old(self)@[i as int]
        });
        let ghost anspre = qu.answers@;
        let mut a = qu.answers.remove(k);
        a.text = new.to_owned();
        proof {
            assert(old(self)@[i as int].questions[j as int].answers =~= seq_deep(anspre));
            assert(a@ == nqa);
        }
        qu.answers.insert(k, a);
        proof {
            lemma_vec_deep(&qu.answers);
            lemma_deep_reinsert(anspre, qu.answers@, k as int, qu.answers@[k as int]);
            assert(qu@ == nqu);
        }
        q.questions.insert(j, qu);
        proof {
            lemma_vec_deep(&q.questions);
            lemma_deep_reinsert(qspre, q.questions@, j as int, q.questions@[j as int]);
            assert(q@ == target);
        }
        self.quizzes.insert(i, q);
        proof {
            lemma_vec_deep(&self.quizzes);
            lemma_deep_reinsert(pre, self.quizzes@, i as int, self.quizzes@[i as int]);
            assert(self@ =~= old(self)@.update(i as int, target));
            lemma_find_answer(old(self)@[i as int].questions[j as int].answers, new@);
            lemma_answers_unique_update(
                old(self)@[i as int].questions[j as int].answers,
                k as int,
                nqa,
            );
            lemma_quiz_wf_update_question(old(self)@[i as int], j as int, nqu);
            lemma_wf_update(old(self)@, i as int, target);
        }
        Ok(new.to_owned())
    }

    /// Sets the correctness of the answer addressed by (quiz title, question
    /// text, answer text). Only that one row changes; an identically named
    /// answer under any other question or quiz is untouched. Refused when
    /// the path resolves to nothing.
    pub fn edit_corectness(
        &mut self,
        quiz_title: &str,
        question_text: &str,
        answer_text: &str,
        is_correct: bool,
    ) -> (r: Result<String, RepoError>)
        requires
            old(self).wf(),
        ensures
            final(self).wf(),
            match r {
                Ok(n) => has_answer_path(old(self)@, quiz_title@, question_text@, answer_text@)
                    && n@ == answer_text@ && final(self)@ == old(self)@.update(
                    find_quiz(old(self)@, quiz_title@),
                    (QuizView {
                        questions: quiz_at(old(self)@, quiz_title@).questions.update(
                            find_question(
                                quiz_at(old(self)@, quiz_title@).questions,
                                question_text@,
                            ),
                            (QuestionView {
                                answers: question_in(
                                    old(self)@,
                                    quiz_title@,
                                    question_text@,
                                ).answers.update(
                                    find_answer(
                                        question_in(
                                            old(self)@,
                                            quiz_title@,
                                            question_text@,
                                        ).answers,
                                        answer_text@,
                                    ),
                                    (AnswerView {
                                        is_correct: is_correct,
                                        ..answer_in(
                                            old(self)@,
                                            quiz_title@,
                                            question_text@,
                                            answer_text@,
                                        )
                                    }),
                                ),
                                ..question_in(old(self)@, quiz_title@, question_text@)
                            }),
                        ),
                        ..quiz_at(old(self)@, quiz_title@)
                    }),
                ),
                Err(e) => e == RepoError::NotFound && !has_answer_path(
                    old(self)@,
                    quiz_title@,
                    question_text@,
                    answer_text@,
                ) && final(self)@ == old(self)@,
            },
    {
        let i = match self.quiz_pos(quiz_title) {
            None => {
                return Err(RepoError::NotFound);
            },
            Some(i) => i,
        };
        proof {
            lemma_find_quiz(self@, quiz_title@);
            assert(quiz_wf(old(self)@[i as int]));
        }
        let ghost pre = self.quizzes@;
        let mut q = self.quizzes.remove(i);
        proof {
            assert(old(self)@ =~= seq_deep(pre));
            assert(q@ == old(self)@[i as int]);
        }
        let j = match question_pos(&q, question_text) {
            None => {
                self.quizzes.insert(i, q);
                proof {
                    lemma_vec_deep(&self.quizzes);
                    lemma_deep_reinsert(pre, self.quizzes@, i as int, self.quizzes@[i as int]);
                    assert(self@ =~= old(self)@);
                }
                return Err(RepoError::NotFound);
            },
            Some(j) => j,
        };
        proof {
            lemma_find_question(q@.questions, question_text@);
        }
        let ghost qspre = q.questions@;
        let mut qu = q.questions.remove(j);
        proof {
            assert(old(self)@[i as int].questions =~= seq_deep(qspre));
            assert(qu@ == old(self)@[i as int].questions[j as int]);
        }
        let k = match answer_pos(&qu, answer_text) {
            None => {
                q.questions.insert(j, qu);
                proof {
                    lemma_vec_deep(&q.questions);
                    lemma_deep_reinsert(qspre, q.questions@, j as int, q.questions@[j as int]);
                    assert(q@.questions =~= old(self)@[i as int].questions);
                    assert(q@ == old(self)@[i as int]);
                }
                self.quizzes.insert(i, q);
                proof {
                    lemma_vec_deep(&self.quizzes);
                    lemma_deep_reinsert(pre, self.quizzes@, i as int, self.quizzes@[i as int]);
                    assert(self@ =~= old(self)@);
                }
                return Err(RepoError::NotFound);
            },
            Some(k) => k,
        };
        proof {
            lemma_find_answer(qu@.answers, answer_text@);
            assert(answers_unique(old(self)@[i as int].questions[j as int].answers));
        }
        let ghost nqa = (AnswerView {
            is_correct: is_correct,
            ..answer_in(old(self)@, quiz_title@, question_text@, answer_text@)
        });
        let ghost nqu = (QuestionView {
            answers: old(self)@[i as int].questions[j as int].answers.update(k as int, nqa),
            ..old(self)@[i as int].questions[j as int]
        });
        let ghost target = (QuizView {
            questions: old(self)@[i as int].questions.update(j as int, nqu),
            ..old(self)@[i as int]
        });
        let ghost anspre = qu.answers@;
        let mut a = qu.answers.remove(k);
        a.is_correct = is_correct;
        proof {
            assert(old(self)@[i as int].questions[j as int].answers =~= seq_deep(anspre));
            assert(a@ == nqa);
        }
        qu.answers.insert(k, a);
        proof {
            lemma_vec_deep(&qu.answers);
            lemma_deep_reinsert(anspre, qu.answers@, k as int, qu.answers@[k as int]);
            assert(qu@ == nqu);
        }
        q.questions.insert(j, qu);
        proof {
            lemma_vec_deep(&q.questions);
            lemma_deep_reinsert(qspre, q.questions@, j as int, q.questions@[j as int]);
            assert(q@ == target);
        }
        self.quizzes.insert(i, q);
        proof {
            lemma_vec_deep(&self.quizzes);
            lemma_deep_reinsert(pre, self.quizzes@, i as int, self.quizzes@[i as int]);
            assert(self@ =~= old(self)@.update(i as int, target));
            lemma_answers_unique_update(
                old(self)@[i as int].questions[j as int].answers,
                k as int,
                nqa,
            );
            lemma_quiz_wf_update_question(old(self)@[i as int], j as int, nqu);
            lemma_wf_update(old(self)@, i as int, target);
        }
        Ok(answer_text.to_owned())
    }

    /// Adds an answer to the question addressed by (quiz title, question
    /// text). Refused when the path resolves to nothing or the text is
    /// already taken within that question.
    pub fn create_answer(
        &mut self,
        quiz_title: &str,
        question_text: &str,
        text: &str,
        is_correct: bool,
    ) -> (r: Result<String, RepoError>)
        requires
            old(self).wf(),
        ensures
            final(self).wf(),
            match r {
                Ok(t) => has_question_path(old(self)@, quiz_title@, question_text@) && !has_answer(
                    question_in(old(self)@, quiz_title@, question_text@).answers,
                    text@,
                ) && t@ == text@ && final(self)@ == old(self)@.update(
                    find_quiz(old(self)@, quiz_title@),
                    (QuizView {
                        questions: quiz_at(old(self)@, quiz_title@).questions.update(
                            find_question(
                                quiz_at(old(self)@, quiz_title@).questions,
                                question_text@,
                            ),
                            (QuestionView {
                                answers: question_in(
                                    old(self)@,
                                    quiz_title@,
                                    question_text@,
                                ).answers.push((AnswerView { text: text@, is_correct })),
                                ..question_in(old(self)@, quiz_title@, question_text@)
                            }),
                        ),
                        ..quiz_at(old(self)@, quiz_title@)
                    }),
                ),
                Err(e) => final(self)@ == old(self)@ && ((e == RepoError::NotFound
                    && !has_question_path(old(self)@, quiz_title@, question_text@)) || (e
                    == RepoError::Conflict && has_question_path(
                    old(self)@,
                    quiz_title@,
                    question_text@,
                ) && has_answer(
                    question_in(old(self)@, quiz_title@, question_text@).answers,
                    text@,
                ))),
            },
    {
        let i = match self.quiz_pos(quiz_title) {
            None => {
                return Err(RepoError::NotFound);
            },
            Some(i) => i,
        };
        proof {
            lemma_find_quiz(self@, quiz_title@);
            assert(quiz_wf(old(self)@[i as int]));
        }
        let ghost pre = self.quizzes@;
        let mut q = self.quizzes.remove(i);
        proof {
            assert(old(self)@ =~= seq_deep(pre));
            assert(q@ == old(self)@[i as int]);
        }
        let j = match question_pos(&q, question_text) {
            None => {
                self.quizzes.insert(i, q);
                proof {
                    lemma_vec_deep(&self.quizzes);
                    lemma_deep_reinsert(pre, self.quizzes@, i as int, self.quizzes@[i as int]);
                    assert(self@ =~= old(self)@);
                }
                return Err(RepoError::NotFound);
            },
            Some(j) => j,
        };
        proof {
            lemma_find_question(q@.questions, question_text@);
        }
        let ghost qspre = q.questions@;
        let mut qu = q.questions.remove(j);
        proof {
            assert(old(self)@[i as int].questions =~= seq_deep(qspre));
            assert(qu@ == old(self)@[i as int].questions[j as int]);
        }
        match answer_pos(&qu, text) {
            Some(_) => {
                q.questions.insert(j, qu);
                proof {
                    lemma_vec_deep(&q.questions);
                    lemma_deep_reinsert(qspre, q.questions@, j as int, q.questions@[j as int]);
                    assert(q@.questions =~= old(self)@[i as int].questions);
                    assert(q@ == old(self)@[i as int]);
                }
                self.quizzes.insert(i, q);
                proof {
                    lemma_vec_deep(&self.quizzes);
                    lemma_deep_reinsert(pre, self.quizzes@, i as int, self.quizzes@[i as int]);
                    assert(self@ =~= old(self)@);
                }
                return Err(RepoError::Conflict);
            },
            None => {},
        }
        proof {
            lemma_find_answer(qu@.answers, text@);
            assert(answers_unique(old(self)@[i as int].questions[j as int].answers));
        }
        let ghost nqa = (AnswerView { text: text@, is_correct });
        let ghost nqu = (QuestionView {
            answers: old(self)@[i as int].questions[j as int].answers.push(nqa),
            ..old(self)@[i as int].questions[j as int]
        });
        let ghost target = (QuizView {
            questions: old(self)@[i as int].questions.update(j as int, nqu),
            ..old(self)@[i as int]
        });
        let ghost anspre = qu.answers@;
        let new_answer = Answer::new(text.to_owned(), is_correct);
        proof {
            assert(new_answer@ == nqa);
        }
        qu.answers.push(new_answer);
        proof {
            assert(old(self)@[i as int].questions[j as int].answers =~= seq_deep(anspre));
            lemma_vec_deep(&qu.answers);
            lemma_deep_push(anspre, qu.answers@, qu.answers@[qu.answers@.len() - 1]);
            assert(qu@ == nqu);
        }
        q.questions.insert(j, qu);
        proof {
            lemma_vec_deep(&q.questions);
            lemma_deep_reinsert(qspre, q.questions@, j as int, q.questions@[j as int]);
            assert(q@ == target);
        }
        self.quizzes.insert(i, q);
        proof {
            lemma_vec_deep(&self.quizzes);
            lemma_deep_reinsert(pre, self.quizzes@, i as int, self.quizzes@[i as int]);
            assert(self@ =~= old(self)@.update(i as int, target));
            lemma_answers_unique_push(old(self)@[i as int].questions[j as int].answers, nqa);
            lemma_quiz_wf_update_question(old(self)@[i as int], j as int, nqu);
            lemma_wf_update(old(self)@, i as int, target);
        }
        Ok(text.to_owned())
    }
}

/// The stored quiz with the given title (meaningful when [`has_quiz`]).
pub open spec fn quiz_at(s: Seq<QuizView>, title: Seq<char>) -> QuizView {
    s[find_quiz(s, title)]
}

/// The natural-key path (title, question text) resolves to a question.
pub open spec fn has_question_path(s: Seq<QuizView>, title: Seq<char>, qtext: Seq<char>) -> bool {
    has_quiz(s, title) && has_question(quiz_at(s, title).questions, qtext)
}

/// The question the path resolves to (meaningful when
/// [`has_question_path`]).
pub open spec fn question_in(s: Seq<QuizView>, title: Seq<char>, qtext: Seq<char>) -> QuestionView {
    quiz_at(s, title).questions[find_question(quiz_at(s, title).questions, qtext)]
}

/// The natural-key path (title, question text, answer text) resolves to an
/// answer.
pub open spec fn has_answer_path(
    s: Seq<QuizView>,
    title: Seq<char>,
    qtext: Seq<char>,
    atext: Seq<char>,
) -> bool {
    has_question_path(s, title, qtext) && has_answer(question_in(s, title, qtext).answers, atext)
}

/// The answer the path resolves to (meaningful when [`has_answer_path`]).
pub open spec fn answer_in(
    s: Seq<QuizView>,
    title: Seq<char>,
    qtext: Seq<char>,
    atext: Seq<char>,
) -> AnswerView {
    question_in(s, title, qtext).answers[find_answer(question_in(s, title, qtext).answers, atext)]
}

/// Replacing one aggregate with a well-formed one whose title collides with
/// no other keeps the store well-formed.
pub proof fn lemma_wf_update(s: Seq<QuizView>, i: int, x: QuizView)
    requires
        store_wf(s),
        0 <= i < s.len(),
        quiz_wf(x),
        forall|j: int| 0 <= j < s.len() && j != i ==> s[j].title != x.title,
    ensures
        store_wf(s.update(i, x)),
{
    let t = s.update(i, x);
    assert forall|p: int, q: int| 0 <= p < q < t.len() implies t[p].title != t[q].title by {
        if p != i && q != i {
            assert(t[p] == s[p]);
            assert(t[q] == s[q]);
        }
    }
    assert forall|p: int| 0 <= p < t.len() implies quiz_wf(#[trigger] t[p]) by {
        if p != i {
            assert(t[p] == s[p]);
        }
    }
}

/// Removing an aggregate keeps the store well-formed.
pub proof fn lemma_wf_remove(s: Seq<QuizView>, i: int)
    requires
        store_wf(s),
        0 <= i < s.len(),
    ensures
        store_wf(s.remove(i)),
{
    let t = s.remove(i);
    assert forall|p: int, q: int| 0 <= p < q < t.len() implies t[p].title != t[q].title by {
        let p0: int = if p < i {
            p
        } else {
            p + 1
        };
        let q0: int = if q < i {
            q
        } else {
            q + 1
        };
        assert(t[p] == s[p0]);
        assert(t[q] == s[q0]);
    }
    assert forall|p: int| 0 <= p < t.len() implies quiz_wf(#[trigger] t[p]) by {
        if p < i {
            assert(t[p] == s[p]);
        } else {
            assert(t[p] == s[p + 1]);
        }
    }
}


/// Removing an answer keeps the remaining texts pairwise distinct.
pub proof fn lemma_answers_unique_remove(s: Seq<AnswerView>, k: int)
    requires
        answers_unique(s),
        0 <= k < s.len(),
    ensures
        answers_unique(s.remove(k)),
{
    let t = s.remove(k);
    assert forall|p: int, q: int| 0 <= p < q < t.len() implies t[p].text != t[q].text by {
        let p0: int = if p < k { p } else { p + 1 };
        let q0: int = if q < k { q } else { q + 1 };
        assert(t[p] == s[p0]);
        assert(t[q] == s[q0]);
    }
}

/// Replacing an answer with one whose text collides with no other keeps the
/// texts pairwise distinct.
pub proof fn lemma_answers_unique_update(s: Seq<AnswerView>, k: int, a: AnswerView)
    requires
        answers_unique(s),
        0 <= k < s.len(),
        forall|p: int| 0 <= p < s.len() && p != k ==> s[p].text != a.text,
    ensures
        answers_unique(s.update(k, a)),
{
    let t = s.update(k, a);
    assert forall|p: int, q: int| 0 <= p < q < t.len() implies t[p].text != t[q].text by {
        if p != k && q != k {
            assert(t[p] == s[p]);
            assert(t[q] == s[q]);
        }
    }
}

/// Appending an answer with a fresh text keeps the texts pairwise distinct.
pub proof fn lemma_answers_unique_push(s: Seq<AnswerView>, a: AnswerView)
    requires
        answers_unique(s),
        forall|p: int| 0 <= p < s.len() ==> s[p].text != a.text,
    ensures
        answers_unique(s.push(a)),
{
    let t = s.push(a);
    assert forall|p: int, q: int| 0 <= p < q < t.len() implies t[p].text != t[q].text by {
        if q < s.len() {
            assert(t[p] == s[p]);
            assert(t[q] == s[q]);
        } else {
            assert(t[p] == s[p]);
            assert(t[q] == a);
        }
    }
}

/// Removing a question keeps the aggregate well-formed.
pub proof fn lemma_quiz_wf_remove_question(q: QuizView, j: int)
    requires
        quiz_wf(q),
        0 <= j < q.questions.len(),
    ensures
        quiz_wf((QuizView { questions: q.questions.remove(j), ..q })),
{
    let t = q.questions.remove(j);
    assert forall|p: int, r: int| 0 <= p < r < t.len() implies t[p].text != t[r].text by {
        let p0: int = if p < j { p } else { p + 1 };
        let r0: int = if r < j { r } else { r + 1 };
        assert(t[p] == q.questions[p0]);
        assert(t[r] == q.questions[r0]);
    }
    assert forall|p: int| 0 <= p < t.len() implies answers_unique(#[trigger] t[p].answers) by {
        if p < j {
            assert(t[p] == q.questions[p]);
        } else {
            assert(t[p] == q.questions[p + 1]);
        }
    }
}

/// Replacing a question with one that repeats no other question's text and
/// whose answers are pairwise distinct keeps the aggregate well-formed.
pub proof fn lemma_quiz_wf_update_question(q: QuizView, j: int, nq: QuestionView)
    requires
        quiz_wf(q),
        0 <= j < q.questions.len(),
        answers_unique(nq.answers),
        forall|p: int| 0 <= p < q.questions.len() && p != j ==> q.questions[p].text != nq.text,
    ensures
        quiz_wf((QuizView { questions: q.questions.update(j, nq), ..q })),
{
    let t = q.questions.update(j, nq);
    assert forall|p: int, r: int| 0 <= p < r < t.len() implies t[p].text != t[r].text by {
        if p != j && r != j {
            assert(t[p] == q.questions[p]);
            assert(t[r] == q.questions[r]);
        }
    }
    assert forall|p: int| 0 <= p < t.len() implies answers_unique(#[trigger] t[p].answers) by {
        if p != j {
            assert(t[p] == q.questions[p]);
        }
    }
}

/// Appending a question with a fresh text and pairwise distinct answers
/// keeps the aggregate well-formed.
pub proof fn lemma_quiz_wf_push_question(q: QuizView, nq: QuestionView)
    requires
        quiz_wf(q),
        answers_unique(nq.answers),
        forall|p: int| 0 <= p < q.questions.len() ==> q.questions[p].text != nq.text,
    ensures
        quiz_wf((QuizView { questions: q.questions.push(nq), ..q })),
{
    let t = q.questions.push(nq);
    assert forall|p: int, r: int| 0 <= p < r < t.len() implies t[p].text != t[r].text by {
        if r < q.questions.len() {
            assert(t[p] == q.questions[p]);
            assert(t[r] == q.questions[r]);
        } else {
            assert(t[p] == q.questions[p]);
            assert(t[r] == nq);
        }
    }
    assert forall|p: int| 0 <= p < t.len() implies answers_unique(#[trigger] t[p].answers) by {
        if p < q.questions.len() {
            assert(t[p] == q.questions[p]);
        }
    }
}

/// The position of the question with the given text within the quiz, if any.
fn question_pos(quiz: &Quiz, text: &str) -> (r: Option<usize>)
    ensures
        match r {
            Some(j) => j as int == find_question(quiz@.questions, text@) && (j as int)
                < quiz@.questions.len(),
            None => find_question(quiz@.questions, text@) == -1,
        },
{
    proof {
        lemma_vec_deep(&quiz.questions);
    }
    let mut j: usize = 0;
    while j < quiz.questions.len()
        invariant
            j <= quiz.questions.len(),
            quiz@.questions.len() == quiz.questions@.len(),
            forall|p: int| 0 <= p < j as int ==> quiz@.questions[p].text != text@,
            forall|p: int|
                0 <= p < quiz.questions@.len() ==> #[trigger] quiz@.questions[p]
                    == quiz.questions@[p].deep_view(),
        decreases quiz.questions.len() - j,
    {
        if str_eq(quiz.questions[j].text.as_str(), text) {
            proof {
                lemma_find_question_is(quiz@.questions, text@, j as int);
            }
            return Some(j);
        }
        j = j + 1;
    }
    proof {
        lemma_find_question(quiz@.questions, text@);
    }
    None
}

/// The position of the answer with the given text within the question, if
/// any.
pub(crate) fn answer_pos(question: &Question, text: &str) -> (r: Option<usize>)
    ensures
        match r {
            Some(k) => k as int == find_answer(question@.answers, text@) && (k as int)
                < question@.answers.len(),
            None => find_answer(question@.answers, text@) == -1,
        },
{
    proof {
        lemma_vec_deep(&question.answers);
    }
    let mut k: usize = 0;
    while k < question.answers.len()
        invariant
            k <= question.answers.len(),
            question@.answers.len() == question.answers@.len(),
            forall|p: int| 0 <= p < k as int ==> question@.answers[p].text != text@,
            forall|p: int|
                0 <= p < question.answers@.len() ==> #[trigger] question@.answers[p]
                    == question.answers@[p].deep_view(),
        decreases question.answers.len() - k,
    {
        if str_eq(question.answers[k].text.as_str(), text) {
            proof {
                lemma_find_answer_is(question@.answers, text@, k as int);
            }
            return Some(k);
        }
        k = k + 1;
    }
    proof {
        lemma_find_answer(question@.answers, text@);
    }
    None
}

/// Two stores whose quizzes carry the same titles position for position
/// resolve every title to the same index.
pub proof fn lemma_find_quiz_stable(s: Seq<QuizView>, t: Seq<QuizView>, title: Seq<char>)
    requires
        s.len() == t.len(),
        forall|p: int| 0 <= p < s.len() ==> s[p].title == t[p].title,
    ensures
        find_quiz(s, title) == find_quiz(t, title),
{
    lemma_find_quiz(s, title);
    lemma_find_quiz(t, title);
    let i = find_quiz(s, title);
    if i >= 0 {
        lemma_find_quiz_is(t, title, i);
    } else {
        if find_quiz(t, title) >= 0 {
            assert(s[find_quiz(t, title)].title == title);
        }
    }
}

/// Two question lists that carry the same texts position for position
/// resolve every text to the same index.
pub proof fn lemma_find_question_stable(s: Seq<QuestionView>, t: Seq<QuestionView>, text: Seq<char>)
    requires
        s.len() == t.len(),
        forall|p: int| 0 <= p < s.len() ==> s[p].text == t[p].text,
    ensures
        find_question(s, text) == find_question(t, text),
{
    lemma_find_question(s, text);
    lemma_find_question(t, text);
    let i = find_question(s, text);
    if i >= 0 {
        lemma_find_question_is(t, text, i);
    } else {
        if find_question(t, text) >= 0 {
            assert(s[find_question(t, text)].text == text);
        }
    }
}

/// Deleting a question cascades: afterwards neither the question nor any of
/// its former answers can be resolved under that quiz any more. The store
/// shape below is what [`QuizStore::delete_question`] leaves behind.
pub proof fn lemma_delete_question_cascade(
    s: Seq<QuizView>,
    quiz_title: Seq<char>,
    question_text: Seq<char>,
    answer_text: Seq<char>,
)
    requires
        store_wf(s),
        has_question_path(s, quiz_title, question_text),
    ensures
        !has_question_path(
            s.update(
                find_quiz(s, quiz_title),
                (QuizView {
                    questions: quiz_at(s, quiz_title).questions.remove(
                        find_question(quiz_at(s, quiz_title).questions, question_text),
                    ),
                    ..quiz_at(s, quiz_title)
                }),
            ),
            quiz_title,
            question_text,
        ),
        !has_answer_path(
            s.update(
                find_quiz(s, quiz_title),
                (QuizView {
                    questions: quiz_at(s, quiz_title).questions.remove(
                        find_question(quiz_at(s, quiz_title).questions, question_text),
                    ),
                    ..quiz_at(s, quiz_title)
                }),
            ),
            quiz_title,
            question_text,
            answer_text,
        ),
{
    lemma_find_quiz(s, quiz_title);
    let i = find_quiz(s, quiz_title);
    let qs = s[i].questions;
    lemma_find_question(qs, question_text);
    let j = find_question(qs, question_text);
    let nqs = qs.remove(j);
    let t = s.update(i, (QuizView { questions: nqs, ..s[i] }));
    assert forall|p: int| 0 <= p < t.len() implies s[p].title == t[p].title by {}
    lemma_find_quiz_stable(s, t, quiz_title);
    assert(quiz_at(t, quiz_title) == t[i]);
    assert(quiz_wf(s[i]));
    assert forall|p: int| 0 <= p < nqs.len() implies nqs[p].text != question_text by {
        if p < j {
            assert(nqs[p] == qs[p]);
            assert(qs[j].text == question_text);
        } else {
            assert(nqs[p] == qs[p + 1]);
            assert(qs[j].text == question_text);
        }
    }
    lemma_find_question(nqs, question_text);
    if find_question(nqs, question_text) >= 0 {
        assert(nqs[find_question(nqs, question_text)].text == question_text);
    }
}

/// Editing one answer's correctness touches only that row: an answer of the
/// same name under a different question or quiz resolves, afterwards, to the
/// same value as before. The store shape below is what
/// [`QuizStore::edit_corectness`] leaves behind.
pub proof fn lemma_edit_corectness_isolated(
    s: Seq<QuizView>,
    quiz_title: Seq<char>,
    question_text: Seq<char>,
    answer_text: Seq<char>,
    value: bool,
    other_quiz: Seq<char>,
    other_question: Seq<char>,
)
    requires
        store_wf(s),
        has_answer_path(s, quiz_title, question_text, answer_text),
        has_answer_path(s, other_quiz, other_question, answer_text),
        other_quiz != quiz_title || other_question != question_text,
    ensures
        has_answer_path(
            s.update(
                find_quiz(s, quiz_title),
                (QuizView {
                    questions: quiz_at(s, quiz_title).questions.update(
                        find_question(quiz_at(s, quiz_title).questions, question_text),
                        (QuestionView {
                            answers: question_in(s, quiz_title, question_text).answers.update(
                                find_answer(
                                    question_in(s, quiz_title, question_text).answers,
                                    answer_text,
                                ),
                                (AnswerView {
                                    is_correct: value,
                                    ..answer_in(s, quiz_title, question_text, answer_text)
                                }),
                            ),
                            ..question_in(s, quiz_title, question_text)
                        }),
                    ),
                    ..quiz_at(s, quiz_title)
                }),
            ),
            other_quiz,
            other_question,
            answer_text,
        ),
        answer_in(
            s.update(
                find_quiz(s, quiz_title),
                (QuizView {
                    questions: quiz_at(s, quiz_title).questions.update(
                        find_question(quiz_at(s, quiz_title).questions, question_text),
                        (QuestionView {
                            answers: question_in(s, quiz_title, question_text).answers.update(
                                find_answer(
                                    question_in(s, quiz_title, question_text).answers,
                                    answer_text,
                                ),
                                (AnswerView {
                                    is_correct: value,
                                    ..answer_in(s, quiz_title, question_text, answer_text)
                                }),
                            ),
                            ..question_in(s, quiz_title, question_text)
                        }),
                    ),
                    ..quiz_at(s, quiz_title)
                }),
            ),
            other_quiz,
            other_question,
            answer_text,
        ) == answer_in(s, other_quiz, other_question, answer_text),
{
    lemma_find_quiz(s, quiz_title);
    let i = find_quiz(s, quiz_title);
    let qs = s[i].questions;
    lemma_find_question(qs, question_text);
    let j = find_question(qs, question_text);
    lemma_find_answer(qs[j].answers, answer_text);
    let k = find_answer(qs[j].answers, answer_text);
    let nqa = (AnswerView { is_correct: value, ..qs[j].answers[k] });
    let nqu = (QuestionView { answers: qs[j].answers.update(k, nqa), ..qs[j] });
    let nq = (QuizView { questions: qs.update(j, nqu), ..s[i] });
    let t = s.update(i, nq);
    assert forall|p: int| 0 <= p < t.len() implies s[p].title == t[p].title by {}
    lemma_find_quiz_stable(s, t, other_quiz);
    lemma_find_quiz(s, other_quiz);
    let io = find_quiz(s, other_quiz);
    if io != i {
        assert(t[io] == s[io]);
        assert(quiz_at(t, other_quiz) == quiz_at(s, other_quiz));
    } else {
        assert(other_quiz == quiz_title);
        assert(other_question != question_text);
        assert forall|p: int| 0 <= p < nq.questions.len() implies nq.questions[p].text
            == qs[p].text by {
            if p != j {
                assert(nq.questions[p] == qs[p]);
            }
        }
        lemma_find_question_stable(qs, nq.questions, other_question);
        lemma_find_question(qs, other_question);
        let jo = find_question(qs, other_question);
        assert(qs[j].text == question_text);
        assert(jo != j);
        assert(nq.questions[jo] == qs[jo]);
        assert(question_in(t, other_quiz, other_question) == question_in(
            s,
            other_quiz,
            other_question,
        ));
    }
}

/// The given answers repeat no text.
fn answers_texts_unique(answers: &Vec<Answer>) -> (r: bool)
    ensures
        r == answers_unique(answers.deep_view()),
{
    proof {
        lemma_vec_deep(answers);
    }
    let n = answers.len();
    let mut i: usize = 0;
    while i < n
        invariant
            i <= n,
            n == answers@.len(),
            forall|p: int, q: int|
                0 <= p < q < answers@.len() && p < i as int ==> answers.deep_view()[p].text
                    != answers.deep_view()[q].text,
            forall|j: int|
                0 <= j < answers@.len() ==> #[trigger] answers.deep_view()[j]
                    == answers@[j].deep_view(),
        decreases n - i,
    {
        let mut j: usize = i + 1;
        while j < n
            invariant
                i < j <= n,
                n == answers@.len(),
                forall|q: int|
                    i < q < j as int ==> answers.deep_view()[i as int].text
                        != answers.deep_view()[q].text,
                forall|k: int|
                    0 <= k < answers@.len() ==> #[trigger] answers.deep_view()[k]
                        == answers@[k].deep_view(),
            decreases n - j,
        {
            if str_eq(answers[i].text.as_str(), answers[j].text.as_str()) {
                proof {
                    let dv = answers.deep_view();
                    assert(dv[i as int].text == dv[j as int].text);
                    assert(answers_unique(dv) ==> dv[i as int].text != dv[j as int].text);
                }
                return false;
            }
            j = j + 1;
        }
        i = i + 1;
    }
    true
}

/// The given questions repeat no text.
fn questions_texts_unique(questions: &Vec<Question>) -> (r: bool)
    ensures
        r == questions_unique(questions.deep_view()),
{
    proof {
        lemma_vec_deep(questions);
    }
    let n = questions.len();
    let mut i: usize = 0;
    while i < n
        invariant
            i <= n,
            n == questions@.len(),
            forall|p: int, q: int|
                0 <= p < q < questions@.len() && p < i as int ==> questions.deep_view()[p].text
                    != questions.deep_view()[q].text,
            forall|j: int|
                0 <= j < questions@.len() ==> #[trigger] questions.deep_view()[j]
                    == questions@[j].deep_view(),
        decreases n - i,
    {
        let mut j: usize = i + 1;
        while j < n
            invariant
                i < j <= n,
                n == questions@.len(),
                forall|q: int|
                    i < q < j as int ==> questions.deep_view()[i as int].text
                        != questions.deep_view()[q].text,
                forall|k: int|
                    0 <= k < questions@.len() ==> #[trigger] questions.deep_view()[k]
                        == questions@[k].deep_view(),
            decreases n - j,
        {
            if str_eq(questions[i].text.as_str(), questions[j].text.as_str()) {
                proof {
                    let dv = questions.deep_view();
                    assert(dv[i as int].text == dv[j as int].text);
                    assert(questions_unique(dv) ==> dv[i as int].text != dv[j as int].text);
                }
                return false;
            }
            j = j + 1;
        }
        i = i + 1;
    }
    true
}

/// The aggregate keeps its own invariants (exec check of [`quiz_wf`]).
fn quiz_value_wf(quiz: &Quiz) -> (r: bool)
    ensures
        r == quiz_wf(quiz@),
{
    if !questions_texts_unique(&quiz.questions) {
        return false;
    }
    proof {
        lemma_vec_deep(&quiz.questions);
    }
    let n = quiz.questions.len();
    let mut i: usize = 0;
    while i < n
        invariant
            i <= n,
            n == quiz.questions@.len(),
            forall|j: int|
                0 <= j < i as int ==> answers_unique(#[trigger] quiz@.questions[j].answers),
            forall|j: int|
                0 <= j < quiz.questions@.len() ==> #[trigger] quiz@.questions[j]
                    == quiz.questions@[j].deep_view(),
        decreases n - i,
    {
        if !answers_texts_unique(&quiz.questions[i].answers) {
            proof {
                assert(quiz@.questions[i as int] == quiz.questions@[i as int].deep_view());
                assert(quiz_wf(quiz@) ==> answers_unique(quiz@.questions[i as int].answers));
            }
            return false;
        }
        i = i + 1;
    }
    true
}

} // verus!
