//! Character classes: every character falls into exactly one of five
//! classes, decided by four Unicode predicates taken in a fixed order.

use vstd::prelude::*;

verus! {

/// Whether Unicode marks `c` as `Uppercase`.
pub uninterp spec fn unicode_uppercase(c: char) -> bool;

/// Whether Unicode marks `c` as `Lowercase`.
pub uninterp spec fn unicode_lowercase(c: char) -> bool;

/// Whether Unicode marks `c` as `Alphabetic` or puts it into one of the
/// numeric general categories.
pub uninterp spec fn unicode_alphanumeric(c: char) -> bool;

/// Whether `c` is a digit in the given radix: `0`-`9` stand for zero to
/// nine, and the letters `a`-`z`, in either case, for ten to thirty-five.
pub open spec fn is_radix_digit(c: char, radix: u32) -> bool {
    ||| '0' <= c <= '9' && (c as int) - ('0' as int) < radix
    ||| 'a' <= c <= 'z' && (c as int) - ('a' as int) + 10 < radix
    ||| 'A' <= c <= 'Z' && (c as int) - ('A' as int) + 10 < radix
}

/// `char::is_uppercase` of the standard library. Its answer is read off the
/// Unicode tables compiled into the standard library, so the contract only
/// gives that answer a name.
pub assume_specification[ char::is_uppercase ](c: char) -> (r: bool)
    ensures
        r == unicode_uppercase(c),
;

/// `char::is_lowercase` of the standard library; as for
/// `char::is_uppercase`, the contract only names the answer.
pub assume_specification[ char::is_lowercase ](c: char) -> (r: bool)
    ensures
        r == unicode_lowercase(c),
;

/// `char::is_alphanumeric` of the standard library; the contract only names
/// the answer.
pub assume_specification[ char::is_alphanumeric ](c: char) -> (r: bool)
    ensures
        r == unicode_alphanumeric(c),
;

/// `char::is_digit` of the standard library. It panics on a radix outside
/// `2..=36`; inside that range it accepts exactly the ASCII characters that
/// denote a value below the radix.
pub assume_specification[ char::is_digit ](c: char, radix: u32) -> (r: bool)
    requires
        2 <= radix <= 36,
    ensures
        r == is_radix_digit(c, radix),
;

/// The class a character counts toward.
#[derive(Clone, Copy, Debug, PartialEq, Eq, Structural)]
pub enum CharClass {
    Uppercase,
    Lowercase,
    Digit,
    Special,
    /// Alphanumeric, but neither cased nor a decimal digit: counts toward
    /// no requirement.
    Unclassified,
}

/// The class that follows from the four predicates, tested in the order
/// uppercase, lowercase, decimal digit, not alphanumeric.
pub open spec fn class_from_flags(
    uppercase: bool,
    lowercase: bool,
    digit: bool,
    alphanumeric: bool,
) -> CharClass {
    if uppercase {
        CharClass::Uppercase
    } else if lowercase {
        CharClass::Lowercase
    } else if digit {
        CharClass::Digit
    } else if !alphanumeric {
        CharClass::Special
    } else {
        CharClass::Unclassified
    }
}

/// The class of a character.
pub open spec fn class_of(c: char) -> CharClass {
    class_from_flags(
        unicode_uppercase(c),
        unicode_lowercase(c),
        is_radix_digit(c, 10),
        unicode_alphanumeric(c),
    )
}

/// Decides the class from the answers of the four predicates.
pub fn class_for(uppercase: bool, lowercase: bool, digit: bool, alphanumeric: bool) -> (k:
    CharClass)
    ensures
        k == class_from_flags(uppercase, lowercase, digit, alphanumeric),
{
    if uppercase {
        CharClass::Uppercase
    } else if lowercase {
        CharClass::Lowercase
    } else if digit {
        CharClass::Digit
    } else if !alphanumeric {
        CharClass::Special
    } else {
        CharClass::Unclassified
    }
}

/// Classifies one character.
pub fn classify(c: char) -> (k: CharClass)
    ensures
        k == class_of(c),
{
    class_for(c.is_uppercase(), c.is_lowercase(), c.is_digit(10), c.is_alphanumeric())
}

/// How many characters of `s` fall into class `k`.
pub open spec fn count_of(s: Seq<char>, k: CharClass) -> nat
    decreases s.len(),
{
    if s.len() == 0 {
        0
    } else {
        count_of(s.drop_last(), k) + if class_of(s.last()) == k {
            1nat
        } else {
            0nat
        }
    }
}

/// No class holds more characters than the sequence has.
pub proof fn lemma_count_at_most_len(s: Seq<char>, k: CharClass)
    ensures
        count_of(s, k) <= s.len(),
    decreases s.len(),
{
    if s.len() > 0 {
        lemma_count_at_most_len(s.drop_last(), k);
    }
}

/// Whether at least one character of `s` falls into class `k`.
pub open spec fn has_class(s: Seq<char>, k: CharClass) -> bool {
    count_of(s, k) > 0
}

/// Which of the four classes that a rule can ask for occur in a text.
#[derive(Clone, Copy, Debug, PartialEq, Eq, Structural)]
pub struct Presence {
    pub uppercase: bool,
    pub lowercase: bool,
    pub digit: bool,
    pub special: bool,
}

impl Presence {
    /// The flags are those of the sequence `s`.
    pub open spec fn describes(&self, s: Seq<char>) -> bool {
        &&& self.uppercase == has_class(s, CharClass::Uppercase)
        &&& self.lowercase == has_class(s, CharClass::Lowercase)
        &&& self.digit == has_class(s, CharClass::Digit)
        &&& self.special == has_class(s, CharClass::Special)
    }
}

/// Finds which classes occur in `text`.
pub fn presence(text: &str) -> (r: Presence)
    ensures
        r.describes(text@),
{
    let mut r = Presence { uppercase: false, lowercase: false, digit: false, special: false };
    for c in it: text.chars()
        invariant
            it.seq() == text@,
            r.describes(text@.take(it.index() as int)),
    {
        proof {
            let seen = text@.take(it.index() + 1);
            assert(seen.drop_last() =~= text@.take(it.index() as int));
            assert(seen.last() == c);
        }
        match classify(c) {
            CharClass::Uppercase => {
                r.uppercase = true;
            },
            CharClass::Lowercase => {
                r.lowercase = true;
            },
            CharClass::Digit => {
                r.digit = true;
            },
            CharClass::Special => {
                r.special = true;
            },
            CharClass::Unclassified => {},
        }
    }
    proof {
        assert(text@.take(text@.len() as int) =~= text@);
    }
    r
}

/// The length of a text in characters, and the number of its characters in
/// each of the four classes that a rule can ask for.
#[derive(Clone, Copy, Debug, PartialEq, Eq, Structural)]
pub struct Tally {
    pub length: usize,
    pub uppercase: usize,
    pub lowercase: usize,
    pub digit: usize,
    pub special: usize,
}

impl Tally {
    /// The class counts are those of the sequence `s`.
    pub open spec fn counts(&self, s: Seq<char>) -> bool {
        &&& self.uppercase == count_of(s, CharClass::Uppercase)
        &&& self.lowercase == count_of(s, CharClass::Lowercase)
        &&& self.digit == count_of(s, CharClass::Digit)
        &&& self.special == count_of(s, CharClass::Special)
    }

    /// The tally is that of the sequence `s`.
    pub open spec fn describes(&self, s: Seq<char>) -> bool {
        &&& self.length == s.len()
        &&& self.counts(s)
    }
}

/// Measures `text` and counts its characters by class.
pub fn tally(text: &str) -> (r: Tally)
    ensures
        r.describes(text@),
{
    let length: usize = text.unicode_len();
    let mut r = Tally { length, uppercase: 0, lowercase: 0, digit: 0, special: 0 };
    for c in it: text.chars()
        invariant
            it.seq() == text@,
            text@.len() == length,
            r.length == length,
            r.counts(text@.take(it.index() as int)),
    {
        proof {
            let seen = text@.take(it.index() + 1);
            assert(seen.drop_last() =~= text@.take(it.index() as int));
            assert(seen.last() == c);
            lemma_count_at_most_len(seen, CharClass::Uppercase);
            lemma_count_at_most_len(seen, CharClass::Lowercase);
            lemma_count_at_most_len(seen, CharClass::Digit);
            lemma_count_at_most_len(seen, CharClass::Special);
        }
        match classify(c) {
            CharClass::Uppercase => {
                r.uppercase = r.uppercase + 1;
            },
            CharClass::Lowercase => {
                r.lowercase = r.lowercase + 1;
            },
            CharClass::Digit => {
                r.digit = r.digit + 1;
            },
            CharClass::Special => {
                r.special = r.special + 1;
            },
            CharClass::Unclassified => {},
        }
    }
    proof {
        assert(text@.take(text@.len() as int) =~= text@);
    }
    r
}

} // verus!
