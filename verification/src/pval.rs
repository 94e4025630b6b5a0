//! The rule set of a validator, and the validation of a password against
//! it.

use crate::chars::{count_of, has_class, presence, CharClass, Presence};
use crate::decimal::{decimal, decimal_chars};
use vstd::prelude::*;

verus! {

/// The rule that a password breaks.
#[derive(Clone, Copy, Debug, PartialEq, Eq, Hash, Structural)]
pub enum Violation {
    TooShort,
    TooLong,
    MissingUppercase,
    MissingLowercase,
    MissingDigit,
    MissingSpecial,
}

/// The rules of a validator: bounds on the length in characters, and the
/// classes of which at least one character must occur.
pub struct RuleSet {
    pub min_length: nat,
    pub max_length: nat,
    pub require_uppercase: bool,
    pub require_lowercase: bool,
    pub require_digit: bool,
    pub require_special: bool,
}

impl RuleSet {
    /// The rules that ask for nothing: any length up to the largest that a
    /// machine can hold, and no class required.
    pub open spec fn permissive() -> RuleSet {
        RuleSet {
            min_length: 0,
            max_length: usize::MAX as nat,
            require_uppercase: false,
            require_lowercase: false,
            require_digit: false,
            require_special: false,
        }
    }

    /// The length rule that a text of `length` characters breaks, the lower
    /// bound taken first.
    pub open spec fn length_violation(self, length: nat) -> Option<Violation> {
        if length < self.min_length {
            Some(Violation::TooShort)
        } else if length > self.max_length {
            Some(Violation::TooLong)
        } else {
            None
        }
    }

    /// The first required class that is absent, in the order uppercase,
    /// lowercase, digit, special.
    pub open spec fn class_violation(
        self,
        uppercase: bool,
        lowercase: bool,
        digit: bool,
        special: bool,
    ) -> Option<Violation> {
        if self.require_uppercase && !uppercase {
            Some(Violation::MissingUppercase)
        } else if self.require_lowercase && !lowercase {
            Some(Violation::MissingLowercase)
        } else if self.require_digit && !digit {
            Some(Violation::MissingDigit)
        } else if self.require_special && !special {
            Some(Violation::MissingSpecial)
        } else {
            None
        }
    }

    /// The first rule that the sequence `s` breaks, if any: the length
    /// rules come before the class rules.
    pub open spec fn first_violation(self, s: Seq<char>) -> Option<Violation> {
        if self.length_violation(s.len()) is Some {
            self.length_violation(s.len())
        } else {
            self.class_violation(
                has_class(s, CharClass::Uppercase),
                has_class(s, CharClass::Lowercase),
                has_class(s, CharClass::Digit),
                has_class(s, CharClass::Special),
            )
        }
    }

    /// The reason given for a violation.
    pub open spec fn reason(self, v: Violation) -> Seq<char> {
        match v {
            Violation::TooShort => "too short, minimum length is "@ + decimal_chars(
                self.min_length,
            ),
            Violation::TooLong => "too long, maximum length is "@ + decimal_chars(
                self.max_length,
            ),
            Violation::MissingUppercase => "Password must contain at least one uppercase letter."@,
            Violation::MissingLowercase => "Password must contain at least one lowercase letter."@,
            Violation::MissingDigit => "Password must contain at least one digit."@,
            Violation::MissingSpecial => "Password must contain at least one special character."@,
        }
    }

    /// What validating `s` yields: nothing where no rule is broken, else
    /// the reason for the first violation.
    pub open spec fn outcome(self, s: Seq<char>) -> Result<(), Seq<char>> {
        match self.first_violation(s) {
            None => Ok(()),
            Some(v) => Err(self.reason(v)),
        }
    }
}

/// Lifts an optional violation into a result.
pub open spec fn as_result(v: Option<Violation>) -> Result<(), Violation> {
    match v {
        None => Ok(()),
        Some(v) => Err(v),
    }
}

/// A password validator: a rule set, built by chained setters.
#[derive(Clone, Copy, Debug)]
pub struct Pval {
    min_length: usize,
    max_length: usize,
    require_uppercase: bool,
    require_lowercase: bool,
    require_digit: bool,
    require_special: bool,
}

impl View for Pval {
    type V = RuleSet;

    closed spec fn view(&self) -> RuleSet {
        RuleSet {
            min_length: self.min_length as nat,
            max_length: self.max_length as nat,
            require_uppercase: self.require_uppercase,
            require_lowercase: self.require_lowercase,
            require_digit: self.require_digit,
            require_special: self.require_special,
        }
    }
}

impl Pval {
    /// A validator with the permissive rules.
    pub fn new() -> (r: Self)
        ensures
            r@ == RuleSet::permissive(),
    {
        Self {
            min_length: 0,
            max_length: usize::MAX,
            require_uppercase: false,
            require_lowercase: false,
            require_digit: false,
            require_special: false,
        }
    }

    /// Sets the least number of characters that a password must have.
    pub fn min_length(self, min_length: usize) -> (r: Self)
        ensures
            r@ == (RuleSet { min_length: min_length as nat, ..self@ }),
    {
        let mut r = self;
        r.min_length = min_length;
        r
    }

    /// Sets the greatest number of characters that a password may have. A
    /// bound below the minimum is taken as it is: no password then passes.
    pub fn max_length(self, max_length: usize) -> (r: Self)
        ensures
            r@ == (RuleSet { max_length: max_length as nat, ..self@ }),
    {
        let mut r = self;
        r.max_length = max_length;
        r
    }

    /// Sets whether a password must hold an uppercase letter.
    pub fn require_uppercase(self, require: bool) -> (r: Self)
        ensures
            r@ == (RuleSet { require_uppercase: require, ..self@ }),
    {
        let mut r = self;
        r.require_uppercase = require;
        r
    }

    /// Sets whether a password must hold a lowercase letter.
    pub fn require_lowercase(self, require: bool) -> (r: Self)
        ensures
            r@ == (RuleSet { require_lowercase: require, ..self@ }),
    {
        let mut r = self;
        r.require_lowercase = require;
        r
    }

    /// Sets whether a password must hold a decimal digit.
    pub fn require_digit(self, require: bool) -> (r: Self)
        ensures
            r@ == (RuleSet { require_digit: require, ..self@ }),
    {
        let mut r = self;
        r.require_digit = require;
        r
    }

    /// Sets whether a password must hold a special character: one that is
    /// neither a letter nor a digit.
    pub fn require_special(self, require: bool) -> (r: Self)
        ensures
            r@ == (RuleSet { require_special: require, ..self@ }),
    {
        let mut r = self;
        r.require_special = require;
        r
    }

    /// Ends the chain of setters; the rules stay as they are.
    pub fn build(self) -> (r: Self)
        ensures
            r@ == self@,
    {
        self
    }

    /// Checks the length of a text against the bounds.
    pub fn check_length(&self, length: usize) -> (r: Result<(), Violation>)
        ensures
            r == as_result(self@.length_violation(length as nat)),
    {
        if length < self.min_length {
            Err(Violation::TooShort)
        } else if length > self.max_length {
            Err(Violation::TooLong)
        } else {
            Ok(())
        }
    }

    /// Checks the classes found in a text against the required ones.
    pub fn check_classes(&self, found: &Presence) -> (r: Result<(), Violation>)
        ensures
            r == as_result(
                self@.class_violation(
                    found.uppercase,
                    found.lowercase,
                    found.digit,
                    found.special,
                ),
            ),
    {
        if self.require_uppercase && !found.uppercase {
            Err(Violation::MissingUppercase)
        } else if self.require_lowercase && !found.lowercase {
            Err(Violation::MissingLowercase)
        } else if self.require_digit && !found.digit {
            Err(Violation::MissingDigit)
        } else if self.require_special && !found.special {
            Err(Violation::MissingSpecial)
        } else {
            Ok(())
        }
    }

    /// Finds the first rule that a password breaks. The length is counted
    /// in characters, and the characters are only looked at where the
    /// length is within the bounds.
    pub fn check(&self, password: &str) -> (r: Result<(), Violation>)
        ensures
            r == as_result(self@.first_violation(password@)),
            password@.len() <= usize::MAX,
    {
        match self.check_length(password.unicode_len()) {
            Err(v) => Err(v),
            Ok(()) => {
                let found = presence(password);
                self.check_classes(&found)
            },
        }
    }

    /// The reason given for a violation of these rules.
    pub fn reason(&self, v: Violation) -> (r: String)
        ensures
            r@ == self@.reason(v),
    {
        match v {
            Violation::TooShort => "too short, minimum length is ".to_owned().concat(
                decimal(self.min_length).as_str(),
            ),
            Violation::TooLong => "too long, maximum length is ".to_owned().concat(
                decimal(self.max_length).as_str(),
            ),
            Violation::MissingUppercase => {
                "Password must contain at least one uppercase letter.".to_owned()
            },
            Violation::MissingLowercase => {
                "Password must contain at least one lowercase letter.".to_owned()
            },
            Violation::MissingDigit => "Password must contain at least one digit.".to_owned(),
            Violation::MissingSpecial => {
                "Password must contain at least one special character.".to_owned()
            },
        }
    }

    /// Validates a password: `Ok` where it breaks no rule, else the reason
    /// for the first rule that it breaks.
    pub fn validate(&self, password: &str) -> (r: Result<(), String>)
        ensures
            match self@.outcome(password@) {
                Ok(_) => r is Ok,
                Err(reason) => r is Err && r->Err_0@ == reason,
            },
            self@ == RuleSet::permissive() ==> r is Ok,
    {
        match self.check(password) {
            Ok(()) => Ok(()),
            Err(v) => Err(self.reason(v)),
        }
    }
}

/// Under the permissive rules every text passes, whatever it holds, the
/// empty one included.
pub proof fn lemma_permissive_accepts_all(s: Seq<char>)
    requires
        s.len() <= usize::MAX,
    ensures
        RuleSet::permissive().first_violation(s) is None,
        RuleSet::permissive().outcome(s) is Ok,
{
}

/// A text shorter than the minimum is too short, and one that reaches the
/// minimum but exceeds the maximum is too long, whichever classes it holds
/// or lacks.
pub proof fn lemma_length_comes_first(rules: RuleSet, s: Seq<char>)
    ensures
        s.len() < rules.min_length ==> rules.first_violation(s) == Some(Violation::TooShort),
        rules.min_length <= s.len() && s.len() > rules.max_length ==> rules.first_violation(s)
            == Some(Violation::TooLong),
{
}

/// Where the maximum lies below the minimum, every text breaks one of the
/// two length rules.
pub proof fn lemma_inverted_bounds_reject_all(rules: RuleSet, s: Seq<char>)
    requires
        rules.max_length < rules.min_length,
    ensures
        rules.first_violation(s) == Some(Violation::TooShort) || rules.first_violation(s) == Some(
            Violation::TooLong,
        ),
        rules.outcome(s) is Err,
{
}

/// For a text whose length is within the bounds, the violation is the
/// first required class of which it holds no character, in the order
/// uppercase, lowercase, digit, special.
pub proof fn lemma_missing_class_order(rules: RuleSet, s: Seq<char>)
    requires
        rules.min_length <= s.len() <= rules.max_length,
    ensures
        rules.require_uppercase && count_of(s, CharClass::Uppercase) == 0
            ==> rules.first_violation(s) == Some(Violation::MissingUppercase),
        !(rules.require_uppercase && count_of(s, CharClass::Uppercase) == 0)
            && rules.require_lowercase && count_of(s, CharClass::Lowercase) == 0
            ==> rules.first_violation(s) == Some(Violation::MissingLowercase),
        !(rules.require_uppercase && count_of(s, CharClass::Uppercase) == 0)
            && !(rules.require_lowercase && count_of(s, CharClass::Lowercase) == 0)
            && rules.require_digit && count_of(s, CharClass::Digit) == 0
            ==> rules.first_violation(s) == Some(Violation::MissingDigit),
        !(rules.require_uppercase && count_of(s, CharClass::Uppercase) == 0)
            && !(rules.require_lowercase && count_of(s, CharClass::Lowercase) == 0)
            && !(rules.require_digit && count_of(s, CharClass::Digit) == 0)
            && rules.require_special && count_of(s, CharClass::Special) == 0
            ==> rules.first_violation(s) == Some(Violation::MissingSpecial),
        !(rules.require_uppercase && count_of(s, CharClass::Uppercase) == 0)
            && !(rules.require_lowercase && count_of(s, CharClass::Lowercase) == 0)
            && !(rules.require_digit && count_of(s, CharClass::Digit) == 0)
            && !(rules.require_special && count_of(s, CharClass::Special) == 0)
            ==> rules.first_violation(s) is None,
{
}

/// Two results that both meet the contract of `Pval::validate` for one rule
/// set and one password agree: both pass, or both fail with the same
/// reason.
pub proof fn lemma_validate_deterministic(
    rules: RuleSet,
    s: Seq<char>,
    first: Result<(), String>,
    second: Result<(), String>,
)
    requires
        match rules.outcome(s) {
            Ok(_) => first is Ok,
            Err(reason) => first is Err && first->Err_0@ == reason,
        },
        match rules.outcome(s) {
            Ok(_) => second is Ok,
            Err(reason) => second is Err && second->Err_0@ == reason,
        },
    ensures
        first is Ok <==> second is Ok,
        first is Err ==> first->Err_0@ == second->Err_0@,
{
}

} // verus!
