use pval::chars::{class_for, classify, presence, tally, CharClass, Presence, Tally};
use pval::decimal::decimal;

#[test]
fn ascii_characters_by_class() {
    assert_eq!(classify('A'), CharClass::Uppercase);
    assert_eq!(classify('Z'), CharClass::Uppercase);
    assert_eq!(classify('a'), CharClass::Lowercase);
    assert_eq!(classify('z'), CharClass::Lowercase);
    assert_eq!(classify('0'), CharClass::Digit);
    assert_eq!(classify('9'), CharClass::Digit);
    assert_eq!(classify('!'), CharClass::Special);
    assert_eq!(classify(' '), CharClass::Special);
    assert_eq!(classify('\n'), CharClass::Special);
    assert_eq!(classify('_'), CharClass::Special);
}

#[test]
fn unicode_characters_by_class() {
    assert_eq!(classify('É'), CharClass::Uppercase);
    assert_eq!(classify('Δ'), CharClass::Uppercase);
    assert_eq!(classify('é'), CharClass::Lowercase);
    assert_eq!(classify('ß'), CharClass::Lowercase);
    assert_eq!(classify('中'), CharClass::Unclassified);
    assert_eq!(classify('٣'), CharClass::Unclassified);
    assert_eq!(classify('€'), CharClass::Special);
    assert_eq!(classify('😀'), CharClass::Special);
}

#[test]
fn class_follows_the_first_flag_that_holds() {
    assert_eq!(class_for(true, true, true, true), CharClass::Uppercase);
    assert_eq!(class_for(true, false, false, false), CharClass::Uppercase);
    assert_eq!(class_for(false, true, true, true), CharClass::Lowercase);
    assert_eq!(class_for(false, false, true, true), CharClass::Digit);
    assert_eq!(class_for(false, false, true, false), CharClass::Digit);
    assert_eq!(class_for(false, false, false, false), CharClass::Special);
    assert_eq!(class_for(false, false, false, true), CharClass::Unclassified);
}

#[test]
fn presence_of_classes_in_a_text() {
    assert_eq!(
        presence(""),
        Presence { uppercase: false, lowercase: false, digit: false, special: false }
    );
    assert_eq!(
        presence("abc1"),
        Presence { uppercase: false, lowercase: true, digit: true, special: false }
    );
    assert_eq!(
        presence("A-"),
        Presence { uppercase: true, lowercase: false, digit: false, special: true }
    );
    assert_eq!(
        presence("中"),
        Presence { uppercase: false, lowercase: false, digit: false, special: false }
    );
}

#[test]
fn tally_of_a_mixed_text() {
    assert_eq!(
        tally("Abc123!@"),
        Tally { length: 8, uppercase: 1, lowercase: 2, digit: 3, special: 2 }
    );
    assert_eq!(
        tally(""),
        Tally { length: 0, uppercase: 0, lowercase: 0, digit: 0, special: 0 }
    );
    assert_eq!(
        tally("é中É"),
        Tally { length: 3, uppercase: 1, lowercase: 1, digit: 0, special: 0 }
    );
}

#[test]
fn decimal_numerals() {
    assert_eq!(decimal(0), "0");
    assert_eq!(decimal(7), "7");
    assert_eq!(decimal(10), "10");
    assert_eq!(decimal(16), "16");
    assert_eq!(decimal(1234567890), "1234567890");
    assert_eq!(decimal(usize::MAX), usize::MAX.to_string());
}
