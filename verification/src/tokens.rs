//! The fixed affirmative/negative token sets used by every yes/no prompt.
//! Each token has a plain spelling and a decorated spelling (the label shown
//! on the yes/no keyboard); exactly these four strings are accepted, anything
//! else is rejected. Historically the decorated spellings varied slightly
//! between flows; here one pair is used uniformly.

use vstd::prelude::*;

verus! {

/// Exec equality on string slices, specified over their views.
pub fn str_eq(a: &str, b: &str) -> (r: bool)
    ensures
        r == (a@ == b@),
{
    let sa = a.to_owned();
    let sb = b.to_owned();
    sa == sb
}

/// The token is one of the two accepted affirmative spellings.
pub open spec fn is_affirmative(t: Seq<char>) -> bool {
    t == "Yes"@ || t == "Yes✔️"@
}

/// The token is one of the two accepted negative spellings.
pub open spec fn is_negative(t: Seq<char>) -> bool {
    t == "No"@ || t == "No❌"@
}

/// Accepts exactly the two affirmative spellings.
pub fn affirmative(t: &str) -> (r: bool)
    ensures
        r == is_affirmative(t@),
{
    str_eq(t, "Yes") || str_eq(t, "Yes✔️")
}

/// Accepts exactly the two negative spellings.
pub fn negative(t: &str) -> (r: bool)
    ensures
        r == is_negative(t@),
{
    str_eq(t, "No") || str_eq(t, "No❌")
}

/// No string is both affirmative and negative: the two token sets are
/// disjoint, so a yes/no prompt never reads one input both ways.
pub proof fn lemma_tokens_disjoint(t: Seq<char>)
    ensures
        !(is_affirmative(t) && is_negative(t)),
{
    reveal_strlit("Yes");
    reveal_strlit("Yes✔️");
    reveal_strlit("No");
    reveal_strlit("No❌");
    assert("Yes"@.len() == 3);
    assert("No"@.len() == 2);
    assert("No❌"@.len() == 3);
    if is_affirmative(t) && is_negative(t) {
        assert(t[0] == 'Y' || t[0] == 'N');
        assert(false);
    }
}

} // verus!
