use timemention::matcher::find_mentions;
use timemention::resolver::{resolve, Meridiem, ResolveError};

fn groups(text: &str) -> Vec<(String, Option<String>, Option<String>, usize, usize)> {
    let as_text = |b: &Vec<u8>| String::from_utf8(b.clone()).unwrap();
    find_mentions(text)
        .iter()
        .map(|m| {
            (
                as_text(m.hour_digits()),
                m.minute_digits().as_ref().map(as_text),
                m.meridiem().as_ref().map(as_text),
                m.start(),
                m.end(),
            )
        })
        .collect()
}

#[test]
fn no_digits_no_mentions() {
    assert!(find_mentions("").is_empty());
    assert!(find_mentions("see you later, around noon").is_empty());
    assert!(find_mentions("am pm AM PM : .").is_empty());
}

#[test]
fn meridiem_without_separator() {
    assert_eq!(
        groups("Let's meet at 3pm"),
        vec![("3".to_string(), None, Some("pm".to_string()), 14, 17)]
    );
}

#[test]
fn minutes_with_colon_and_dot() {
    assert_eq!(
        groups("14:30 or 5.45 AM"),
        vec![
            ("14".to_string(), Some("30".to_string()), None, 0, 6),
            ("5".to_string(), Some("45".to_string()), Some("AM".to_string()), 9, 16),
        ]
    );
}

#[test]
fn bare_numbers_over_match() {
    assert_eq!(groups("I scored 14 points"), vec![("14".to_string(), None, None, 9, 12)]);
}

#[test]
fn long_digit_runs_split_in_pairs() {
    assert_eq!(
        groups("12345"),
        vec![
            ("12".to_string(), None, None, 0, 2),
            ("34".to_string(), None, None, 2, 4),
            ("5".to_string(), None, None, 4, 5),
        ]
    );
}

#[test]
fn single_minute_digit_is_no_minute_group() {
    assert_eq!(groups("3:5pm"), vec![
        ("3".to_string(), None, None, 0, 1),
        ("5".to_string(), None, Some("pm".to_string()), 2, 5),
    ]);
}

#[test]
fn mixed_case_meridiem_is_not_a_token() {
    assert_eq!(groups("3Pm"), vec![("3".to_string(), None, None, 0, 1)]);
}

#[test]
fn offsets_are_bytes_after_multibyte_text() {
    assert_eq!(groups("é 7am"), vec![("7".to_string(), None, Some("am".to_string()), 3, 6)]);
}

fn resolve_first(text: &str) -> Result<Option<(u32, u32, Meridiem)>, ResolveError> {
    let ms = find_mentions(text);
    resolve(&ms[0]).map(|o| o.map(|t| (t.hour(), t.minute(), t.meridiem())))
}

#[test]
fn pm_adds_twelve() {
    assert_eq!(resolve_first("3pm"), Ok(Some((15, 0, Meridiem::Pm))));
    assert_eq!(resolve_first("3:15 PM"), Ok(Some((15, 15, Meridiem::Pm))));
}

#[test]
fn am_keeps_the_hour() {
    assert_eq!(resolve_first("9am"), Ok(Some((9, 0, Meridiem::Am))));
    assert_eq!(resolve_first("11:59am"), Ok(Some((11, 59, Meridiem::Am))));
}

#[test]
fn minutes_without_meridiem_are_24_hour() {
    assert_eq!(resolve_first("09:05"), Ok(Some((9, 5, Meridiem::Unspecified))));
    assert_eq!(resolve_first("23.59"), Ok(Some((23, 59, Meridiem::Unspecified))));
}

#[test]
fn bare_number_is_skipped() {
    assert_eq!(resolve_first("14"), Ok(None));
}

#[test]
fn hour_above_twelve_with_meridiem_is_refused() {
    assert_eq!(resolve_first("13pm"), Err(ResolveError::HourOutOfRangeForMeridiem));
    assert_eq!(resolve_first("99 am"), Err(ResolveError::HourOutOfRangeForMeridiem));
}

#[test]
fn twelve_pm_is_noon_and_twelve_am_is_midnight() {
    assert_eq!(resolve_first("12pm"), Ok(Some((12, 0, Meridiem::Pm))));
    assert_eq!(resolve_first("12:30 PM"), Ok(Some((12, 30, Meridiem::Pm))));
    assert_eq!(resolve_first("12am"), Ok(Some((0, 0, Meridiem::Am))));
    assert_eq!(resolve_first("12:15AM"), Ok(Some((0, 15, Meridiem::Am))));
}

#[test]
fn twenty_five_hundred_is_refused() {
    let ms = find_mentions("see you at 25:00");
    assert_eq!(ms.len(), 1);
    assert_eq!(resolve_first("see you at 25:00"), Err(ResolveError::NotATimeOfDay));
}

#[test]
fn minutes_above_fifty_nine_are_refused() {
    assert_eq!(resolve_first("10:75"), Err(ResolveError::NotATimeOfDay));
}

#[test]
fn every_meridiem_hour_from_one_to_twelve_resolves() {
    for h in 1..=12u32 {
        for mer in ["am", "AM", "pm", "PM"] {
            let text = format!("{}{}", h, mer);
            assert!(matches!(resolve_first(&text), Ok(Some(_))), "{}", text);
        }
    }
    for h in 13..=99u32 {
        assert_eq!(resolve_first(&format!("{}pm", h)), Err(ResolveError::HourOutOfRangeForMeridiem));
    }
}
