use user_lookup::filters::{extract_filters, parse_flag, Filters, MalformedFilter};
use user_lookup::key::{MalformedKey, NameGrade};
use user_lookup::text::{chars_of, i16_to_text, parse_u8, u64_to_text};

#[test]
fn key_decodes_name_and_grade() {
    let key = NameGrade::from_param("Alex_10").unwrap();
    assert_eq!(key.name, "Alex");
    assert_eq!(key.grade, 10);
}

#[test]
fn key_takes_every_grade_in_range() {
    for grade in 0..=255u32 {
        let token = format!("name_{}", grade);
        let key = NameGrade::from_param(&token).unwrap();
        assert_eq!(key.name, "name");
        assert_eq!(key.grade as u32, grade);
    }
}

#[test]
fn key_without_delimiter_fails() {
    assert_eq!(NameGrade::from_param("Alex10").err(), Some(MalformedKey));
    assert_eq!(NameGrade::from_param("").err(), Some(MalformedKey));
}

#[test]
fn key_with_two_delimiters_fails() {
    assert!(NameGrade::from_param("Alex_10_2").is_err());
    assert!(NameGrade::from_param("Al_ex_10").is_err());
    assert!(NameGrade::from_param("Alex__10").is_err());
}

#[test]
fn key_with_bad_grade_fails() {
    assert!(NameGrade::from_param("Alex_ten").is_err());
    assert!(NameGrade::from_param("Alex_256").is_err());
    assert!(NameGrade::from_param("Alex_-1").is_err());
    assert!(NameGrade::from_param("Alex_1.5").is_err());
    assert!(NameGrade::from_param("Alex_ 1").is_err());
    assert!(NameGrade::from_param("Alex_").is_err());
    assert!(NameGrade::from_param("Alex_+").is_err());
}

#[test]
fn key_with_empty_name_fails() {
    assert!(NameGrade::from_param("_10").is_err());
    assert!(NameGrade::from_param("_").is_err());
}

#[test]
fn key_reads_sign_and_leading_zeros() {
    assert_eq!(NameGrade::from_param("Alex_+7").unwrap().grade, 7);
    assert_eq!(NameGrade::from_param("Alex_007").unwrap().grade, 7);
    assert_eq!(NameGrade::from_param("Alex_000000000000000000000255").unwrap().grade, 255);
}

#[test]
fn key_keeps_other_characters_of_the_name() {
    let key = NameGrade::from_param("Zoë-Ann%_3").unwrap();
    assert_eq!(key.name, "Zoë-Ann%");
    assert_eq!(key.grade, 3);
}

#[test]
fn key_failure_has_its_message() {
    assert_eq!(MalformedKey.message(), "Error parsing user parameter");
}

#[test]
fn parse_u8_agrees_with_std() {
    let texts = [
        "0", "1", "9", "10", "99", "100", "255", "256", "300", "999", "1000", "+0", "+255", "+256",
        "", "+", "-", "-0", "-1", "++1", "1+", "1 ", " 1", "1_0", "0x10", "١", "2５", "00", "000255",
        "0000256", "4294967296", "99999999999999999999999999",
    ];
    for text in texts {
        assert_eq!(parse_u8(text), text.parse::<u8>().ok(), "{:?}", text);
    }
}

#[test]
fn numbers_are_written_in_decimal() {
    assert_eq!(u64_to_text(0), "0");
    assert_eq!(u64_to_text(7), "7");
    assert_eq!(u64_to_text(10), "10");
    assert_eq!(u64_to_text(36), "36");
    assert_eq!(u64_to_text(u64::MAX), "18446744073709551615");
    assert_eq!(i16_to_text(0), "0");
    assert_eq!(i16_to_text(36), "36");
    assert_eq!(i16_to_text(-1), "-1");
    assert_eq!(i16_to_text(i16::MAX), "32767");
    assert_eq!(i16_to_text(i16::MIN), "-32768");
}

#[test]
fn chars_are_taken_in_order() {
    assert_eq!(chars_of("aé_1"), vec!['a', 'é', '_', '1']);
    assert_eq!(chars_of(""), Vec::<char>::new());
}

#[test]
fn flag_words_are_read_in_any_case() {
    for word in ["true", "TRUE", "True", "on", "On", "yes", "YES", ""] {
        assert_eq!(parse_flag(word), Some(true), "{:?}", word);
    }
    for word in ["false", "FALSE", "False", "off", "OFF", "no", "No"] {
        assert_eq!(parse_flag(word), Some(false), "{:?}", word);
    }
    for word in ["1", "0", "t", "f", "tru", "truee", " true", "nope", "oui", "ON ", "ｏｎ"] {
        assert_eq!(parse_flag(word), None, "{:?}", word);
    }
}

#[test]
fn filter_absent_when_both_fields_absent() {
    assert_eq!(extract_filters(None, None), Ok(None));
}

#[test]
fn filter_present_when_both_fields_read() {
    assert_eq!(
        extract_filters(Some("36"), Some("true")),
        Ok(Some(Filters { age: 36, active: true }))
    );
    assert_eq!(
        extract_filters(Some("0"), Some("false")),
        Ok(Some(Filters { age: 0, active: false }))
    );
    assert_eq!(
        extract_filters(Some("255"), Some("off")),
        Ok(Some(Filters { age: 255, active: false }))
    );
}

#[test]
fn filter_malformed_when_a_field_does_not_read() {
    assert_eq!(extract_filters(Some("abc"), Some("true")), Err(MalformedFilter));
    assert_eq!(extract_filters(Some("36"), Some("maybe")), Err(MalformedFilter));
    assert_eq!(extract_filters(Some("256"), Some("true")), Err(MalformedFilter));
    assert_eq!(extract_filters(Some("-1"), None), Err(MalformedFilter));
    assert_eq!(extract_filters(None, Some("2")), Err(MalformedFilter));
    assert_eq!(extract_filters(Some(""), Some("true")), Err(MalformedFilter));
}

#[test]
fn half_a_filter_is_no_filter() {
    assert_eq!(extract_filters(Some("36"), None), Ok(None));
    assert_eq!(extract_filters(None, Some("true")), Ok(None));
}
