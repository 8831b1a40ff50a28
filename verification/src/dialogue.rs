//! Per-user dialogue-state persistence: get, set and clear keyed by user id.
//! Each entry carries a version that moves on every successful write, and a
//! write names the version it read: a write whose version is stale is
//! refused and changes nothing. Serializing transitions per user this way
//! rules the lost update out — two transitions that both read the same
//! version cannot both commit — while entries of different users never
//! affect one another.

use vstd::prelude::*;

use crate::state::QuizState;
use crate::state::StateView;

verus! {

/// One user's dialogue entry.
#[derive(Debug)]
pub struct DialogueEntry {
    pub user: u64,
    pub version: u64,
    pub state: QuizState,
}

/// Mathematical view of a [`DialogueEntry`].
pub struct DialogueEntryView {
    pub user: u64,
    pub version: u64,
    pub state: StateView,
}

impl View for DialogueEntry {
    type V = DialogueEntryView;

    open spec fn view(&self) -> DialogueEntryView {
        DialogueEntryView { user: self.user, version: self.version, state: self.state@ }
    }
}

impl DeepView for DialogueEntry {
    type V = DialogueEntryView;

    open spec fn deep_view(&self) -> DialogueEntryView {
        self.view()
    }
}

/// The index of the entry of the given user, or -1 if there is none.
pub open spec fn find_user(s: Seq<DialogueEntryView>, user: u64) -> int
    decreases s.len(),
{
    if s.len() <= 0 {
        -1
    } else if s[0].user == user {
        0
    } else {
        let r = find_user(s.skip(1), user);
        if r < 0 {
            -1
        } else {
            r + 1
        }
    }
}

/// There is an entry for the given user.
pub open spec fn has_user(s: Seq<DialogueEntryView>, user: u64) -> bool {
    find_user(s, user) >= 0
}

/// The version the given user's entry carries; 0 when there is none.
pub open spec fn version_of(s: Seq<DialogueEntryView>, user: u64) -> u64 {
    if has_user(s, user) {
        s[find_user(s, user)].version
    } else {
        0
    }
}

/// The state the given user's entry carries, if any.
pub open spec fn state_of(s: Seq<DialogueEntryView>, user: u64) -> Option<StateView> {
    if has_user(s, user) {
        Some(s[find_user(s, user)].state)
    } else {
        None
    }
}

/// What [`find_user`] returns: a first match, or -1 when nothing matches.
pub proof fn lemma_find_user(s: Seq<DialogueEntryView>, user: u64)
    ensures
        -1 <= find_user(s, user) < s.len(),
        find_user(s, user) >= 0 ==> s[find_user(s, user)].user == user,
        forall|j: int| 0 <= j < find_user(s, user) ==> s[j].user != user,
        find_user(s, user) == -1 ==> forall|j: int| 0 <= j < s.len() ==> s[j].user != user,
    decreases s.len(),
{
    if s.len() > 0 && s[0].user != user {
        lemma_find_user(s.skip(1), user);
        assert forall|j: int| 1 <= j < s.len() implies s.skip(1)[j - 1] == s[j] by {}
    }
}

/// A first match determines [`find_user`].
pub proof fn lemma_find_user_is(s: Seq<DialogueEntryView>, user: u64, i: int)
    requires
        0 <= i < s.len(),
        s[i].user == user,
        forall|j: int| 0 <= j < i ==> s[j].user != user,
    ensures
        find_user(s, user) == i,
    decreases s.len(),
{
    if i > 0 {
        assert forall|j: int| 1 <= j < s.len() implies s.skip(1)[j - 1] == s[j] by {}
        lemma_find_user_is(s.skip(1), user, i - 1);
    }
}

/// The version a successful write moves on to.
pub open spec fn next_version(v: u64) -> u64 {
    if v == u64::MAX {
        0
    } else {
        (v + 1) as u64
    }
}

/// The version always moves: a successful write leaves a version different
/// from the one it named. This is what rules the lost update out — a second
/// write naming the version both transitions read finds it gone.
pub proof fn lemma_version_moves(v: u64)
    ensures
        next_version(v) != v,
{
}

/// Every user has one entry at most.
pub open spec fn dialogue_wf(s: Seq<DialogueEntryView>) -> bool {
    forall|i: int, j: int| 0 <= i < j < s.len() ==> s[i].user != s[j].user
}

/// What a versioned write does: refused when the named version is stale,
/// otherwise the entry is replaced (or created) and the version moves on.
pub open spec fn spec_set(
    s: Seq<DialogueEntryView>,
    user: u64,
    expected: u64,
    state: StateView,
) -> (Seq<DialogueEntryView>, bool) {
    if expected != version_of(s, user) {
        (s, false)
    } else if has_user(s, user) {
        (
            s.update(
                find_user(s, user),
                (DialogueEntryView { user, version: next_version(expected), state }),
            ),
            true,
        )
    } else {
        (s.push((DialogueEntryView { user, version: 1, state })), true)
    }
}

/// After a write that landed, the user's version has moved on and the stored
/// state is the written one.
pub proof fn lemma_spec_set_lands(s: Seq<DialogueEntryView>, user: u64, state: StateView)
    requires
        dialogue_wf(s),
    ensures
        spec_set(s, user, version_of(s, user), state).1,
        version_of(spec_set(s, user, version_of(s, user), state).0, user) == next_version(
            version_of(s, user),
        ),
        state_of(spec_set(s, user, version_of(s, user), state).0, user) == Some(state),
{
    let v = version_of(s, user);
    let t = spec_set(s, user, v, state).0;
    lemma_find_user(s, user);
    if has_user(s, user) {
        let i = find_user(s, user);
        assert forall|p: int| 0 <= p < t.len() implies s[p].user == t[p].user by {
            if p != i {
                assert(t[p] == s[p]);
            }
        }
        lemma_user_stable(s, t, user);
    } else {
        lemma_find_user(t, user);
        lemma_find_user_is(t, user, t.len() - 1);
    }
}

/// The in-memory per-user dialogue store.
#[derive(Debug)]
pub struct DialogueStore {
    entries: Vec<DialogueEntry>,
}

impl View for DialogueStore {
    type V = Seq<DialogueEntryView>;

    closed spec fn view(&self) -> Seq<DialogueEntryView> {
        self.entries.deep_view()
    }
}

impl DialogueStore {
    /// The store keeps its invariant.
    pub open spec fn wf(&self) -> bool {
        dialogue_wf(self@)
    }

    /// An empty store.
    pub fn new() -> (r: DialogueStore)
        ensures
            r@ == Seq::<DialogueEntryView>::empty(),
            r.wf(),
    {
        let v: Vec<DialogueEntry> = Vec::new();
        proof {
            assert(v.deep_view() =~= Seq::<DialogueEntryView>::empty());
        }
        DialogueStore { entries: v }
    }

    /// The position of the given user's entry, if any.
    fn user_pos(&self, user: u64) -> (r: Option<usize>)
        ensures
            match r {
                Some(i) => i as int == find_user(self@, user) && (i as int) < self@.len(),
                None => find_user(self@, user) == -1,
            },
    {
        proof {
            crate::store::lemma_vec_deep(&self.entries);
        }
        let mut i: usize = 0;
        while i < self.entries.len()
            invariant
                i <= self.entries.len(),
                self@.len() == self.entries@.len(),
                forall|j: int| 0 <= j < i as int ==> self@[j].user != user,
                forall|j: int|
                    0 <= j < self@.len() ==> #[trigger] self@[j] == self.entries@[j].deep_view(),
            decreases self.entries.len() - i,
        {
            if self.entries[i].user == user {
                proof {
                    lemma_find_user_is(self@, user, i as int);
                }
                return Some(i);
            }
            i = i + 1;
        }
        proof {
            lemma_find_user(self@, user);
        }
        None
    }

    /// The version and current state of the given user's dialogue; absent
    /// users are idle at version 0. The version is what a following
    /// [`DialogueStore::set`] must name.
    pub fn get(&self, user: u64) -> (r: (u64, QuizState))
        ensures
            r.0 == version_of(self@, user),
            match state_of(self@, user) {
                Some(st) => r.1@ == st,
                None => r.1@ == StateView::Start,
            },
    {
        match self.user_pos(user) {
            Some(i) => {
                proof {
                    crate::store::lemma_vec_deep(&self.entries);
                }
                let e = &self.entries[i];
                proof {
                    assert(e@ == self@[i as int]);
                }
                (e.version, e.state.duplicate())
            },
            None => (0, QuizState::Start),
        }
    }

    /// Writes the given user's dialogue state, naming the version the state
    /// was read at. The write succeeds exactly when that version is still
    /// current; then the version moves on. A stale write changes nothing.
    /// Entries of other users are untouched either way.
    pub fn set(&mut self, user: u64, expected: u64, state: QuizState) -> (r: bool)
        requires
            old(self).wf(),
        ensures
            final(self).wf(),
            (final(self)@, r) == spec_set(old(self)@, user, expected, state@),
            r == (expected == version_of(old(self)@, user)),
            !r ==> final(self)@ == old(self)@,
            r ==> version_of(final(self)@, user) == next_version(expected),
            r ==> state_of(final(self)@, user) == Some(state@),
            forall|w: u64|
                w != user ==> version_of(final(self)@, w) == version_of(old(self)@, w)
                    && state_of(final(self)@, w) == state_of(old(self)@, w),
    {
        let ghost pre = self.entries@;
        match self.user_pos(user) {
            Some(i) => {
                proof {
                    crate::store::lemma_vec_deep(&self.entries);
                    lemma_find_user(self@, user);
                }
                let current = self.entries[i].version;
                proof {
                    assert(self.entries@[i as int].deep_view() == self@[i as int]);
                    assert(current == version_of(self@, user));
                }
                if current != expected {
                    return false;
                }
                let bumped: u64 = if expected == u64::MAX {
                    0
                } else {
                    expected + 1
                };
                let entry = DialogueEntry { user, version: bumped, state };
                let _old_entry = self.entries.remove(i);
                self.entries.insert(i, entry);
                proof {
                    assert(old(self)@ =~= crate::store::seq_deep(pre));
                    crate::store::lemma_vec_deep(&self.entries);
                    crate::store::lemma_deep_reinsert(
                        pre,
                        self.entries@,
                        i as int,
                        self.entries@[i as int],
                    );
                    let nv = (DialogueEntryView {
                        user,
                        version: next_version(expected),
                        state: state@,
                    });
                    assert(self@ =~= old(self)@.update(i as int, nv));
                    assert forall|p: int, q: int|
                        0 <= p < q < self@.len() implies self@[p].user != self@[q].user by {
                        if p != i as int && q != i as int {
                            assert(self@[p] == old(self)@[p]);
                            assert(self@[q] == old(self)@[q]);
                        } else {
                            assert(old(self)@[i as int].user == user);
                        }
                    }
                    lemma_find_user_is(self@, user, i as int);
                    assert forall|w: u64| w != user implies version_of(self@, w) == version_of(
                        old(self)@,
                        w,
                    ) && state_of(self@, w) == state_of(old(self)@, w) by {
                        assert forall|p: int| 0 <= p < self@.len() implies self@[p].user == old(
                            self,
                        )@[p].user by {
                            if p != i as int {
                                assert(self@[p] == old(self)@[p]);
                            }
                        }
                        lemma_user_stable(old(self)@, self@, w);
                        lemma_find_user(old(self)@, w);
                        if has_user(old(self)@, w) {
                            assert(self@[find_user(self@, w)] == old(self)@[find_user(
                                old(self)@,
                                w,
                            )]);
                        }
                    }
                }
                true
            },
            None => {
                proof {
                    lemma_find_user(self@, user);
                }
                if expected != 0 {
                    return false;
                }
                let entry = DialogueEntry { user, version: 1, state };
                self.entries.push(entry);
                proof {
                    assert(old(self)@ =~= crate::store::seq_deep(pre));
                    crate::store::lemma_vec_deep(&self.entries);
                    crate::store::lemma_deep_push(
                        pre,
                        self.entries@,
                        self.entries@[self.entries@.len() - 1],
                    );
                    let nv = (DialogueEntryView { user, version: 1, state: state@ });
                    assert(self@ =~= old(self)@.push(nv));
                    assert forall|p: int, q: int|
                        0 <= p < q < self@.len() implies self@[p].user != self@[q].user by {
                        if q < self@.len() - 1 {
                            assert(self@[p] == old(self)@[p]);
                            assert(self@[q] == old(self)@[q]);
                        } else {
                            assert(self@[p] == old(self)@[p]);
                        }
                    }
                    lemma_find_user_is(self@, user, self@.len() - 1);
                    assert forall|w: u64| w != user implies version_of(self@, w) == version_of(
                        old(self)@,
                        w,
                    ) && state_of(self@, w) == state_of(old(self)@, w) by {
                        lemma_find_user(old(self)@, w);
                        lemma_find_user(self@, w);
                        if has_user(old(self)@, w) {
                            lemma_find_user_is(self@, w, find_user(old(self)@, w));
                        } else {
                            if has_user(self@, w) {
                                assert(self@[find_user(self@, w)].user == w);
                                assert(find_user(self@, w) < self@.len() - 1);
                            }
                        }
                    }
                }
                true
            },
        }
    }

    /// Drops the given user's dialogue entry; the user is idle again at
    /// version 0. Entries of other users are untouched.
    pub fn clear(&mut self, user: u64)
        requires
            old(self).wf(),
        ensures
            final(self).wf(),
            version_of(final(self)@, user) == 0,
            state_of(final(self)@, user) == Option::<StateView>::None,
            forall|w: u64|
                w != user ==> version_of(final(self)@, w) == version_of(old(self)@, w)
                    && state_of(final(self)@, w) == state_of(old(self)@, w),
    {
        let ghost pre = self.entries@;
        match self.user_pos(user) {
            Some(i) => {
                proof {
                    lemma_find_user(self@, user);
                }
                let _removed = self.entries.remove(i);
                proof {
                    assert(old(self)@ =~= crate::store::seq_deep(pre));
                    crate::store::lemma_vec_deep(&self.entries);
                    crate::store::lemma_deep_remove(pre, self.entries@, i as int);
                    assert(self@ =~= old(self)@.remove(i as int));
                    assert forall|p: int, q: int|
                        0 <= p < q < self@.len() implies self@[p].user != self@[q].user by {
                        let p0: int = if p < i as int {
                            p
                        } else {
                            p + 1
                        };
                        let q0: int = if q < i as int {
                            q
                        } else {
                            q + 1
                        };
                        assert(self@[p] == old(self)@[p0]);
                        assert(self@[q] == old(self)@[q0]);
                    }
                    lemma_find_user(self@, user);
                    if has_user(self@, user) {
                        let m = find_user(self@, user);
                        let m0: int = if m < i as int {
                            m
                        } else {
                            m + 1
                        };
                        assert(self@[m] == old(self)@[m0]);
                        assert(old(self)@[i as int].user == user);
                    }
                    assert forall|w: u64| w != user implies version_of(self@, w) == version_of(
                        old(self)@,
                        w,
                    ) && state_of(self@, w) == state_of(old(self)@, w) by {
                        lemma_find_user(old(self)@, w);
                        lemma_find_user(self@, w);
                        if has_user(old(self)@, w) {
                            let m = find_user(old(self)@, w);
                            let m1: int = if m < i as int {
                                m
                            } else {
                                m - 1
                            };
                            assert(m != i as int);
                            assert(self@[m1] == old(self)@[m]);
                            assert forall|j: int| 0 <= j < m1 implies self@[j].user != w by {
                                if j < i as int {
                                    assert(self@[j] == old(self)@[j]);
                                } else {
                                    assert(self@[j] == old(self)@[j + 1]);
                                }
                            }
                            lemma_find_user_is(self@, w, m1);
                        } else {
                            if has_user(self@, w) {
                                let m = find_user(self@, w);
                                let m0: int = if m < i as int {
                                    m
                                } else {
                                    m + 1
                                };
                                assert(self@[m] == old(self)@[m0]);
                            }
                        }
                    }
                }
            },
            None => {
                proof {
                    lemma_find_user(self@, user);
                }
            },
        }
    }
}

/// Two stores whose entries carry the same users position for position
/// resolve every user to the same index.
pub proof fn lemma_user_stable(s: Seq<DialogueEntryView>, t: Seq<DialogueEntryView>, user: u64)
    requires
        s.len() == t.len(),
        forall|p: int| 0 <= p < s.len() ==> s[p].user == t[p].user,
    ensures
        find_user(s, user) == find_user(t, user),
{
    lemma_find_user(s, user);
    lemma_find_user(t, user);
    let i = find_user(s, user);
    if i >= 0 {
        lemma_find_user_is(t, user, i);
    } else {
        if find_user(t, user) >= 0 {
            assert(s[find_user(t, user)].user == user);
        }
    }
}

/// No lost update: when two transitions for one user both read the store at
/// the same version, the first write lands, moves the version on, and the
/// second write — still naming the version both read — is refused and
/// changes nothing. [`DialogueStore::set`] realizes exactly [`spec_set`],
/// so two overlapping turns for one user can never both commit.
pub proof fn lemma_no_lost_update(
    s: Seq<DialogueEntryView>,
    user: u64,
    first: StateView,
    second: StateView,
)
    requires
        dialogue_wf(s),
    ensures
        spec_set(s, user, version_of(s, user), first).1,
        !spec_set(
            spec_set(s, user, version_of(s, user), first).0,
            user,
            version_of(s, user),
            second,
        ).1,
        spec_set(
            spec_set(s, user, version_of(s, user), first).0,
            user,
            version_of(s, user),
            second,
        ).0 == spec_set(s, user, version_of(s, user), first).0,
{
    let v = version_of(s, user);
    lemma_spec_set_lands(s, user, first);
    lemma_version_moves(v);
}

} // verus!
