use tmpl::cmd::generate::merge_options;
use tmpl::value::{
    check_moment, check_value, coerce, parse_integer, pick, Date, Moment, Offset, Time,
};

#[test]
fn test_merge_options_empty_options() {
    let mut defaults = toml::Table::new();
    defaults.insert("user".to_string(), toml::Value::String("alice".to_string()));
    defaults.insert("count".to_string(), toml::Value::Integer(5));

    let result = merge_options(&defaults, vec![]);

    assert_eq!(result, defaults);
}

#[test]
fn test_merge_options_string_values() {
    let defaults = toml::Table::new();
    let options = vec!["name".to_string(), "Bob".to_string()];

    let result = merge_options(&defaults, options);

    assert_eq!(
        result.get("name"),
        Some(&toml::Value::String("Bob".to_string()))
    );
}

#[test]
fn test_merge_options_integer_parsing() {
    let defaults = toml::Table::new();
    let options = vec!["count".to_string(), "42".to_string()];

    let result = merge_options(&defaults, options);

    assert_eq!(result.get("count"), Some(&toml::Value::Integer(42)));
}

#[test]
fn test_merge_options_boolean_parsing() {
    let defaults = toml::Table::new();
    let options = vec![
        "enabled".to_string(),
        "true".to_string(),
        "disabled".to_string(),
        "false".to_string(),
    ];

    let result = merge_options(&defaults, options);

    assert_eq!(result.get("enabled"), Some(&toml::Value::Boolean(true)));
    assert_eq!(result.get("disabled"), Some(&toml::Value::Boolean(false)));
}

#[test]
fn test_merge_options_overrides_defaults() {
    let mut defaults = toml::Table::new();
    defaults.insert("user".to_string(), toml::Value::String("alice".to_string()));
    defaults.insert("count".to_string(), toml::Value::Integer(5));

    let options = vec!["user".to_string(), "bob".to_string()];

    let result = merge_options(&defaults, options);

    assert_eq!(
        result.get("user"),
        Some(&toml::Value::String("bob".to_string()))
    );
    assert_eq!(result.get("count"), Some(&toml::Value::Integer(5))); // unchanged
}

#[test]
fn test_merge_options_odd_number_ignored() {
    let mut defaults = toml::Table::new();
    defaults.insert(
        "existing".to_string(),
        toml::Value::String("value".to_string()),
    );

    // 3 options - the last one has no value so should be ignored
    let options = vec![
        "key1".to_string(),
        "value1".to_string(),
        "incomplete".to_string(),
    ];

    let result = merge_options(&defaults, options);

    assert_eq!(
        result.get("key1"),
        Some(&toml::Value::String("value1".to_string()))
    );
    assert_eq!(result.get("incomplete"), None); // not added
    assert_eq!(
        result.get("existing"),
        Some(&toml::Value::String("value".to_string()))
    ); // unchanged
}

#[test]
fn test_merge_options_invalid_toml_becomes_string() {
    let defaults = toml::Table::new();
    let options = vec!["weird".to_string(), "not-valid-toml!@#".to_string()];

    let result = merge_options(&defaults, options);

    assert_eq!(
        result.get("weird"),
        Some(&toml::Value::String("not-valid-toml!@#".to_string()))
    );
}

#[test]
fn merging_leaves_the_defaults_as_they_were() {
    let mut defaults = toml::Table::new();
    defaults.insert("user".to_string(), toml::Value::String("alice".to_string()));
    let before = defaults.clone();

    let result = merge_options(&defaults, vec!["user".to_string(), "bob".to_string()]);

    assert_eq!(defaults, before);
    assert_ne!(result, defaults);
    assert_eq!(result.len(), 1);
}

#[test]
fn a_later_option_wins_over_an_earlier_one() {
    let options = vec![
        "n".to_string(),
        "1".to_string(),
        "n".to_string(),
        "two".to_string(),
    ];

    let result = merge_options(&toml::Table::new(), options);

    assert_eq!(result.get("n"), Some(&toml::Value::String("two".to_string())));
    assert_eq!(result.len(), 1);
}

#[test]
fn a_single_option_without_value_changes_nothing() {
    let mut defaults = toml::Table::new();
    defaults.insert("count".to_string(), toml::Value::Integer(5));

    let result = merge_options(&defaults, vec!["count".to_string()]);

    assert_eq!(result, defaults);
}

#[test]
fn integers_are_read_with_sign_and_within_range() {
    assert_eq!(coerce("42"), toml::Value::Integer(42));
    assert_eq!(coerce("-7"), toml::Value::Integer(-7));
    assert_eq!(coerce("+7"), toml::Value::Integer(7));
    assert_eq!(coerce("007"), toml::Value::Integer(7));
    assert_eq!(coerce("-0"), toml::Value::Integer(0));
    assert_eq!(coerce("9223372036854775807"), toml::Value::Integer(i64::MAX));
    assert_eq!(coerce("-9223372036854775808"), toml::Value::Integer(i64::MIN));
    assert_eq!(coerce("9223372036854775808"), toml::Value::Float(9223372036854775808.0));
    assert_eq!(coerce("-"), toml::Value::String("-".to_string()));
    assert_eq!(coerce("+"), toml::Value::String("+".to_string()));
    assert_eq!(coerce(""), toml::Value::String(String::new()));
    assert_eq!(coerce(" 42"), toml::Value::String(" 42".to_string()));
    assert_eq!(coerce("4_2"), toml::Value::String("4_2".to_string()));
    assert_eq!(coerce("--1"), toml::Value::String("--1".to_string()));
}

#[test]
fn floats_come_after_integers() {
    assert_eq!(coerce("3.5"), toml::Value::Float(3.5));
    assert_eq!(coerce("1e3"), toml::Value::Float(1000.0));
    assert_eq!(coerce("-0.25"), toml::Value::Float(-0.25));
    assert_eq!(coerce("inf"), toml::Value::Float(f64::INFINITY));
    assert_eq!(coerce("1.0"), toml::Value::Float(1.0));
}

#[test]
fn booleans_are_spelled_in_lower_case() {
    assert_eq!(coerce("true"), toml::Value::Boolean(true));
    assert_eq!(coerce("false"), toml::Value::Boolean(false));
    assert_eq!(coerce("True"), toml::Value::String("True".to_string()));
    assert_eq!(coerce("yes"), toml::Value::String("yes".to_string()));
}

#[test]
fn datetimes_come_before_strings() {
    let date = coerce("1979-05-27");
    assert!(matches!(date, toml::Value::Datetime(_)));
    assert_eq!(date.to_string(), "1979-05-27");

    let moment = coerce("1979-05-27T07:32:00Z");
    assert!(matches!(moment, toml::Value::Datetime(_)));
    assert_eq!(moment.to_string(), "1979-05-27T07:32:00Z");

    assert_eq!(coerce("1979-05-27x"), toml::Value::String("1979-05-27x".to_string()));
}

#[test]
fn the_first_reading_that_is_there_wins() {
    let float = || Some(toml::Value::Float(1.5));
    let moment = || Some(toml::Value::Datetime("1979-05-27".parse().unwrap()));

    assert_eq!(pick(Some(7), float(), Some(true), moment(), "w"), toml::Value::Integer(7));
    assert_eq!(pick(None, float(), Some(true), moment(), "w"), toml::Value::Float(1.5));
    assert_eq!(pick(None, None, Some(true), moment(), "w"), toml::Value::Boolean(true));
    assert_eq!(pick(None, None, None, moment(), "w"), moment().unwrap());
    assert_eq!(pick(None, None, None, None, "w"), toml::Value::String("w".to_string()));
}

fn moment(date: Option<(u16, u8, u8)>, time: Option<(u8, u8, Option<u8>, Option<u32>)>, offset: Option<Offset>) -> Moment {
    Moment {
        date: date.map(|(year, month, day)| Date { year, month, day }),
        time: time.map(|(hour, minute, second, nanosecond)| Time { hour, minute, second, nanosecond }),
        offset,
    }
}

#[test]
fn a_datetime_has_to_be_within_its_ranges() {
    let noon = Some((12, 0, Some(0), None));

    assert!(check_moment(&moment(Some((1979, 5, 27)), None, None)));
    assert!(check_moment(&moment(None, noon, None)));
    assert!(check_moment(&moment(Some((1979, 5, 27)), noon, None)));
    assert!(check_moment(&moment(Some((1979, 5, 27)), noon, Some(Offset::Z))));
    assert!(check_moment(&moment(Some((2024, 2, 29)), None, None)));
    assert!(check_moment(&moment(Some((2000, 2, 29)), None, None)));
    assert!(check_moment(&moment(Some((0, 1, 1)), None, None)));
    assert!(check_moment(&moment(Some((9999, 12, 31)), None, None)));
    assert!(check_moment(&moment(None, Some((23, 59, Some(60), Some(999_999_999))), None)));
    assert!(check_moment(&moment(None, Some((7, 32, None, None)), None)));
    assert!(check_moment(&moment(Some((1979, 5, 27)), noon, Some(Offset::Custom { minutes: 1439 }))));
    assert!(check_moment(&moment(Some((1979, 5, 27)), noon, Some(Offset::Custom { minutes: -1439 }))));

    assert!(!check_moment(&moment(None, None, None)));
    assert!(!check_moment(&moment(None, None, Some(Offset::Z))));
    assert!(!check_moment(&moment(None, noon, Some(Offset::Z))));
    assert!(!check_moment(&moment(Some((1979, 5, 27)), None, Some(Offset::Z))));
    assert!(!check_moment(&moment(Some((2023, 2, 29)), None, None)));
    assert!(!check_moment(&moment(Some((1900, 2, 29)), None, None)));
    assert!(!check_moment(&moment(Some((2024, 4, 31)), None, None)));
    assert!(!check_moment(&moment(Some((2024, 13, 1)), None, None)));
    assert!(!check_moment(&moment(Some((2024, 0, 1)), None, None)));
    assert!(!check_moment(&moment(Some((2024, 1, 0)), None, None)));
    assert!(!check_moment(&moment(Some((10000, 1, 1)), None, None)));
    assert!(!check_moment(&moment(None, Some((24, 0, None, None)), None)));
    assert!(!check_moment(&moment(None, Some((0, 60, None, None)), None)));
    assert!(!check_moment(&moment(None, Some((0, 0, Some(61), None)), None)));
    assert!(!check_moment(&moment(None, Some((0, 0, Some(0), Some(1_000_000_000))), None)));
    assert!(!check_moment(&moment(Some((1979, 5, 27)), noon, Some(Offset::Custom { minutes: 1440 }))));
    assert!(!check_moment(&moment(Some((1979, 5, 27)), noon, Some(Offset::Custom { minutes: i16::MIN }))));
}

#[test]
fn what_the_range_test_accepts_can_be_written_and_read_back() {
    let shown = |value: toml::Value| {
        assert!(check_value(&value));
        let text = value.to_string();
        assert_eq!(text.parse::<toml::value::Datetime>().ok().map(toml::Value::Datetime), Some(value));
    };
    shown(toml::Value::Datetime(toml::value::Datetime {
        date: Some(toml::value::Date { year: 0, month: 2, day: 29 }),
        time: Some(toml::value::Time { hour: 23, minute: 59, second: Some(60), nanosecond: Some(999_999_999) }),
        offset: Some(toml::value::Offset::Custom { minutes: -1439 }),
    }));
    shown(toml::Value::Datetime(toml::value::Datetime {
        date: None,
        time: Some(toml::value::Time { hour: 7, minute: 5, second: None, nanosecond: None }),
        offset: None,
    }));
    shown(toml::Value::Datetime(toml::value::Datetime {
        date: Some(toml::value::Date { year: 9999, month: 12, day: 31 }),
        time: Some(toml::value::Time { hour: 0, minute: 0, second: Some(0), nanosecond: Some(0) }),
        offset: Some(toml::value::Offset::Z),
    }));
}

#[test]
fn only_plain_values_are_variables() {
    assert!(check_value(&toml::Value::String("s".into())));
    assert!(check_value(&toml::Value::Integer(1)));
    assert!(check_value(&toml::Value::Float(0.5)));
    assert!(check_value(&toml::Value::Boolean(false)));
    assert!(check_value(&coerce("1979-05-27T07:32:00-08:00")));
    assert!(check_value(&toml::Value::Array(vec![])));
    assert!(check_value(&toml::Value::Table(toml::Table::new())));
    let bad = toml::Value::Datetime(toml::value::Datetime { date: None, time: None, offset: None });
    assert!(!check_value(&bad));
    assert!(!check_value(&toml::Value::Array(vec![toml::Value::Integer(1), bad.clone()])));
    let mut table = toml::Table::new();
    table.insert("ok".into(), toml::Value::Array(vec![toml::Value::Integer(1)]));
    assert!(check_value(&toml::Value::Table(table.clone())));
    table.insert("list".into(), toml::Value::Array(vec![toml::Value::Array(vec![bad])]));
    assert!(!check_value(&toml::Value::Table(table)));
}

#[test]
fn an_integer_is_read_like_std_reads_it() {
    let words = [
        "0", "7", "-7", "+7", "007", "-0", "+0", "9223372036854775807", "9223372036854775808",
        "-9223372036854775808", "-9223372036854775809", "92233720368547758070", "", "-", "+",
        "++1", "+-1", "1-", "1+1", " 1", "1 ", "1_000", "0x10", "1e3", "1.0", "١٢٣", "１２", "a",
        "12a", "-a1", "00000000000000000000000000000001", "18446744073709551616",
        "-00000000000000000009223372036854775808",
    ];
    for word in words {
        assert_eq!(parse_integer(word), word.parse::<i64>().ok(), "{:?}", word);
    }
}
