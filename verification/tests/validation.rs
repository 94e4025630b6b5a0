use pval::chars::Presence;
use pval::pval::Violation;
use pval::Pval;

fn strict() -> Pval {
    Pval::new()
        .min_length(7)
        .max_length(16)
        .require_uppercase(true)
        .require_lowercase(true)
        .require_digit(true)
        .require_special(true)
        .build()
}

#[test]
fn permissive_rules_accept_anything() {
    let v = Pval::new();
    assert_eq!(v.validate(""), Ok(()));
    assert_eq!(v.validate("abc"), Ok(()));
    assert_eq!(v.validate("   "), Ok(()));
    assert_eq!(v.validate("日本語のパスワード"), Ok(()));
    assert_eq!(v.build().validate("x"), Ok(()));
    let long = "a".repeat(10_000);
    assert_eq!(v.validate(&long), Ok(()));
}

#[test]
fn short_candidate_fails_with_minimum_length() {
    let r = strict().validate("abc");
    assert_eq!(r, Err("too short, minimum length is 7".to_string()));
    assert!(r.unwrap_err().contains("minimum length is 7"));
    assert_eq!(strict().check("abc"), Err(Violation::TooShort));
}

#[test]
fn well_formed_candidate_passes() {
    assert_eq!(strict().validate("abcdefgH1!"), Ok(()));
    assert_eq!(strict().check("abcdefgH1!"), Ok(()));
}

#[test]
fn long_candidate_fails_with_maximum_length() {
    let r = strict().validate("abcdefghijklmnopq");
    assert_eq!(r, Err("too long, maximum length is 16".to_string()));
    assert_eq!(strict().check("abcdefghijklmnopq"), Err(Violation::TooLong));
    assert_eq!(strict().validate("abcdefghijkLMN1!"), Ok(()));
}

#[test]
fn length_is_reported_before_a_missing_class() {
    let v = Pval::new().min_length(5).max_length(6).require_digit(true);
    assert_eq!(v.check("abc"), Err(Violation::TooShort));
    assert_eq!(v.check("abcdefg"), Err(Violation::TooLong));
    assert_eq!(v.check("abcde"), Err(Violation::MissingDigit));
    assert_eq!(v.check("abcd1"), Ok(()));
}

#[test]
fn bounds_are_inclusive() {
    let v = Pval::new().min_length(3).max_length(5);
    assert_eq!(v.check("ab"), Err(Violation::TooShort));
    assert_eq!(v.check("abc"), Ok(()));
    assert_eq!(v.check("abcde"), Ok(()));
    assert_eq!(v.check("abcdef"), Err(Violation::TooLong));
}

#[test]
fn length_counts_characters_not_bytes() {
    let v = Pval::new().min_length(4);
    assert_eq!(v.check("ééé"), Err(Violation::TooShort));
    assert_eq!(v.check("éééé"), Ok(()));
    let w = Pval::new().max_length(3);
    assert_eq!(w.check("ééé"), Ok(()));
    assert_eq!(w.check("éééé"), Err(Violation::TooLong));
}

#[test]
fn missing_classes_are_reported_in_order() {
    let v = Pval::new()
        .require_uppercase(true)
        .require_lowercase(true)
        .require_digit(true)
        .require_special(true);
    assert_eq!(v.check(""), Err(Violation::MissingUppercase));
    assert_eq!(v.check("A"), Err(Violation::MissingLowercase));
    assert_eq!(v.check("Aa"), Err(Violation::MissingDigit));
    assert_eq!(v.check("Aa1"), Err(Violation::MissingSpecial));
    assert_eq!(v.check("Aa1 "), Ok(()));
    assert_eq!(v.check("1!"), Err(Violation::MissingUppercase));
    assert_eq!(v.check("A1!"), Err(Violation::MissingLowercase));
    assert_eq!(v.check("Aa!"), Err(Violation::MissingDigit));
}

#[test]
fn each_missing_class_has_its_reason() {
    assert_eq!(
        Pval::new().require_uppercase(true).validate("abc"),
        Err("Password must contain at least one uppercase letter.".to_string())
    );
    assert_eq!(
        Pval::new().require_lowercase(true).validate("ABC"),
        Err("Password must contain at least one lowercase letter.".to_string())
    );
    assert_eq!(
        Pval::new().require_digit(true).validate("abc"),
        Err("Password must contain at least one digit.".to_string())
    );
    assert_eq!(
        Pval::new().require_special(true).validate("abc1"),
        Err("Password must contain at least one special character.".to_string())
    );
}

#[test]
fn a_flag_set_back_to_false_asks_for_nothing() {
    let v = Pval::new().require_digit(true).require_digit(false);
    assert_eq!(v.validate("abc"), Ok(()));
}

#[test]
fn later_setter_overrides_earlier() {
    let v = Pval::new().min_length(10).min_length(2);
    assert_eq!(v.validate("abc"), Ok(()));
    let w = Pval::new().max_length(1).max_length(3);
    assert_eq!(w.validate("abc"), Ok(()));
}

#[test]
fn maximum_below_minimum_rejects_everything() {
    let v = Pval::new().min_length(5).max_length(2);
    assert_eq!(v.check(""), Err(Violation::TooShort));
    assert_eq!(v.check("abc"), Err(Violation::TooShort));
    assert_eq!(v.check("abcde"), Err(Violation::TooLong));
    assert_eq!(v.check("abcdefgh"), Err(Violation::TooLong));
    assert_eq!(
        v.validate("abcde"),
        Err("too long, maximum length is 2".to_string())
    );
}

#[test]
fn uncased_letters_meet_no_requirement() {
    let v = Pval::new().require_special(true);
    assert_eq!(v.check("中文"), Err(Violation::MissingSpecial));
    assert_eq!(v.check("中 文"), Ok(()));
    let w = Pval::new().require_digit(true);
    assert_eq!(w.check("٣"), Err(Violation::MissingDigit));
    assert_eq!(w.check("3"), Ok(()));
}

#[test]
fn validating_twice_gives_the_same_result() {
    let v = strict();
    for candidate in ["", "abc", "abcdefgH1!", "abcdefgh", "ABCDEFG1!"] {
        assert_eq!(v.validate(candidate), v.validate(candidate));
        assert_eq!(v.check(candidate), v.check(candidate));
    }
}

#[test]
fn check_length_on_plain_numbers() {
    let v = Pval::new().min_length(2).max_length(4);
    assert_eq!(v.check_length(0), Err(Violation::TooShort));
    assert_eq!(v.check_length(1), Err(Violation::TooShort));
    assert_eq!(v.check_length(2), Ok(()));
    assert_eq!(v.check_length(4), Ok(()));
    assert_eq!(v.check_length(5), Err(Violation::TooLong));
    assert_eq!(Pval::new().check_length(usize::MAX), Ok(()));
}

#[test]
fn check_classes_on_plain_flags() {
    let v = Pval::new().require_lowercase(true).require_special(true);
    let none = Presence { uppercase: false, lowercase: false, digit: false, special: false };
    assert_eq!(v.check_classes(&none), Err(Violation::MissingLowercase));
    let lower = Presence { lowercase: true, ..none };
    assert_eq!(v.check_classes(&lower), Err(Violation::MissingSpecial));
    let both = Presence { special: true, ..lower };
    assert_eq!(v.check_classes(&both), Ok(()));
    assert_eq!(Pval::new().check_classes(&none), Ok(()));
}

#[test]
fn reason_spells_out_the_bound() {
    let v = Pval::new().min_length(12).max_length(340);
    assert_eq!(v.reason(Violation::TooShort), "too short, minimum length is 12");
    assert_eq!(v.reason(Violation::TooLong), "too long, maximum length is 340");
    assert_eq!(
        Pval::new().reason(Violation::TooLong),
        format!("too long, maximum length is {}", usize::MAX)
    );
    assert_eq!(Pval::new().reason(Violation::TooShort), "too short, minimum length is 0");
}
