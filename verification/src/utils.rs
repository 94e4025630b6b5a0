//! A coarse strength rating from the length of a password and the spread
//! of its characters over the classes.

use crate::chars::{count_of, tally, CharClass, Tally};
use vstd::prelude::*;

verus! {

/// The strength of a password, from weakest to strongest.
#[derive(Clone, Copy, Debug, PartialEq, Eq, PartialOrd, Ord, Hash, Structural)]
pub enum Strength {
    Weak,
    Medium,
    Strong,
    VeryStrong,
}

/// One point where the condition holds, none where it does not.
pub open spec fn point(earned: bool) -> nat {
    if earned {
        1
    } else {
        0
    }
}

/// The score of a text with the given length and class counts, between 0
/// and 10.
///
/// Length earns two points, both of them from eight characters on: one for
/// reaching eight, one for reaching half of sixteen. Each class earns a
/// point for occurring and another for occurring more than once.
pub open spec fn score_of_counts(
    length: nat,
    uppercase: nat,
    lowercase: nat,
    digit: nat,
    special: nat,
) -> nat {
    point(length >= 8) + point(length >= 8)
        + point(uppercase > 0) + point(lowercase > 0) + point(digit > 0) + point(special > 0)
        + point(uppercase > 1) + point(lowercase > 1) + point(digit > 1) + point(special > 1)
}

/// The score of a sequence of characters.
pub open spec fn score_of(s: Seq<char>) -> nat {
    score_of_counts(
        s.len(),
        count_of(s, CharClass::Uppercase),
        count_of(s, CharClass::Lowercase),
        count_of(s, CharClass::Digit),
        count_of(s, CharClass::Special),
    )
}

/// The strength that a score stands for.
pub open spec fn rating(score: nat) -> Strength {
    if score <= 3 {
        Strength::Weak
    } else if score <= 6 {
        Strength::Medium
    } else if score <= 9 {
        Strength::Strong
    } else {
        Strength::VeryStrong
    }
}

/// The strength of a sequence of characters.
pub open spec fn strength_of(s: Seq<char>) -> Strength {
    rating(score_of(s))
}

impl Strength {
    /// The label of a strength, as a sequence of characters.
    pub open spec fn label_chars(self) -> Seq<char> {
        match self {
            Strength::Weak => "weak"@,
            Strength::Medium => "medium"@,
            Strength::Strong => "strong"@,
            Strength::VeryStrong => "very strong"@,
        }
    }

    /// The strength that a score stands for: up to 3 is weak, up to 6
    /// medium, up to 9 strong, anything above very strong.
    pub fn from_score(score: u8) -> (r: Strength)
        ensures
            r == rating(score as nat),
    {
        if score <= 3 {
            Strength::Weak
        } else if score <= 6 {
            Strength::Medium
        } else if score <= 9 {
            Strength::Strong
        } else {
            Strength::VeryStrong
        }
    }

    /// The label of a strength: "weak", "medium", "strong" or
    /// "very strong".
    pub fn label(self) -> (r: String)
        ensures
            r@ == self.label_chars(),
    {
        match self {
            Strength::Weak => "weak".to_owned(),
            Strength::Medium => "medium".to_owned(),
            Strength::Strong => "strong".to_owned(),
            Strength::VeryStrong => "very strong".to_owned(),
        }
    }
}

/// The score of a tally.
pub fn score(t: &Tally) -> (r: u8)
    ensures
        r == score_of_counts(
            t.length as nat,
            t.uppercase as nat,
            t.lowercase as nat,
            t.digit as nat,
            t.special as nat,
        ),
        r <= 10,
{
    let mut score: u8 = 0;
    if t.length >= 8 {
        score += 1;
    }
    if t.length >= 16 / 2 {
        score += 1;
    }
    if t.uppercase > 0 {
        score += 1;
    }
    if t.lowercase > 0 {
        score += 1;
    }
    if t.digit > 0 {
        score += 1;
    }
    if t.special > 0 {
        score += 1;
    }
    if t.uppercase > 1 {
        score += 1;
    }
    if t.lowercase > 1 {
        score += 1;
    }
    if t.digit > 1 {
        score += 1;
    }
    if t.special > 1 {
        score += 1;
    }
    score
}

/// Rates the strength of a password.
pub fn strength(password: &str) -> (r: Strength)
    ensures
        r == strength_of(password@),
{
    let t = tally(password);
    Strength::from_score(score(&t))
}

/// Rates the strength of a password and gives the rating's label.
pub fn check_strength(password: &str) -> (r: String)
    ensures
        r@ == strength_of(password@).label_chars(),
{
    strength(password).label()
}

/// The score never exceeds ten.
pub proof fn lemma_score_at_most_ten(s: Seq<char>)
    ensures
        score_of(s) <= 10,
{
}

/// Two labels that both meet the contract of `check_strength` for one
/// password are the same text.
pub proof fn lemma_check_strength_deterministic(s: Seq<char>, first: String, second: String)
    requires
        first@ == strength_of(s).label_chars(),
        second@ == strength_of(s).label_chars(),
    ensures
        first@ == second@,
{
}

} // verus!
