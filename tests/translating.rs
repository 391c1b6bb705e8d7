use timemention::compose::{compose, TranslationResult};
use timemention::engine::{
    message_action, reaction_outcome, translate, translate_message, MessageAction, ReactionOutcome,
};
use timemention::instant::anchor;
use timemention::matcher::find_mentions;
use timemention::resolver::resolve;
use timemention::zone::TimezoneId;

// 2024-01-15T12:00:00Z
const JAN_15_NOON: i64 = 1705320000;
// 2024-03-10T12:00:00Z, the day New York moves its clocks forward
const MAR_10_NOON: i64 = 1710072000;

fn zone(name: &str) -> TimezoneId {
    TimezoneId::parse(name).unwrap()
}

#[test]
fn zone_names_are_checked() {
    assert!(TimezoneId::parse("Europe/London").is_some());
    assert_eq!(TimezoneId::parse("America/New_York").unwrap().as_str(), "America/New_York");
    assert!(TimezoneId::parse("Mars/Olympus_Mons").is_none());
    assert!(TimezoneId::parse("europe/london").is_none());
    assert!(TimezoneId::parse("").is_none());
}

#[test]
fn three_pm_new_york_to_london() {
    let r = translate_message(
        "Let's meet at 3pm",
        &zone("America/New_York"),
        &zone("Europe/London"),
        JAN_15_NOON,
    );
    assert_eq!(r.len(), 1);
    assert_eq!(r[0].sender_local, "2024-01-15 15:00:00 EST");
    assert_eq!(r[0].viewer_local, "2024-01-15 20:00:00 GMT");
}

#[test]
fn summer_offsets_come_from_the_calendar() {
    // 2024-07-01T12:00:00Z: both zones on summer time, still five hours apart
    let r = translate_message("at 3pm", &zone("America/New_York"), &zone("Europe/London"), 1719835200);
    assert_eq!(r[0].sender_local, "2024-07-01 15:00:00 EDT");
    assert_eq!(r[0].viewer_local, "2024-07-01 20:00:00 BST");
    // 2024-03-20T12:00:00Z: New York already on summer time, London not yet
    let r = translate_message("at 3pm", &zone("America/New_York"), &zone("Europe/London"), 1710936000);
    assert_eq!(r[0].viewer_local, "2024-03-20 19:00:00 GMT");
}

#[test]
fn projection_may_land_on_the_next_day() {
    let r = translate_message("11pm", &zone("America/New_York"), &zone("Asia/Tokyo"), JAN_15_NOON);
    assert_eq!(r[0].sender_local, "2024-01-15 23:00:00 EST");
    assert_eq!(r[0].viewer_local, "2024-01-16 13:00:00 JST");
}

#[test]
fn today_is_the_senders_date() {
    // 2024-01-16T02:00:00Z is still the 15th in New York
    let r = translate_message("10:30", &zone("America/New_York"), &zone("UTC"), 1705370400);
    assert_eq!(r[0].sender_local, "2024-01-15 10:30:00 EST");
    assert_eq!(r[0].viewer_local, "2024-01-15 15:30:00 UTC");
}

#[test]
fn reading_skipped_by_the_clock_gives_nothing() {
    let ny = zone("America/New_York");
    let t = resolve(&find_mentions("2:30am")[0]).unwrap().unwrap();
    assert!(anchor(&t, &ny, MAR_10_NOON).is_none());
    assert!(translate_message("2:30am", &ny, &zone("Europe/London"), MAR_10_NOON).is_empty());
}

#[test]
fn repeated_reading_takes_the_earlier_instant() {
    // 2024-11-03T12:00:00Z: New York turns its clocks back from 2:00 EDT to 1:00 EST
    let ny = zone("America/New_York");
    let t = resolve(&find_mentions("1:30am")[0]).unwrap().unwrap();
    let a = anchor(&t, &ny, 1730635200).unwrap();
    // 2024-11-03T05:30:00Z, while still on summer time
    assert_eq!(a.utc_seconds(), 1730611800);
    let r = translate_message("1:30am", &ny, &zone("UTC"), 1730635200);
    assert_eq!(r[0].sender_local, "2024-11-03 01:30:00 EDT");
    assert_eq!(r[0].viewer_local, "2024-11-03 05:30:00 UTC");
}

#[test]
fn noon_and_midnight_translate() {
    let r = translate_message("12pm and 12am", &zone("Europe/London"), &zone("Asia/Tokyo"), JAN_15_NOON);
    assert_eq!(r.len(), 2);
    assert_eq!(r[0].sender_local, "2024-01-15 12:00:00 GMT");
    assert_eq!(r[0].viewer_local, "2024-01-15 21:00:00 JST");
    assert_eq!(r[1].sender_local, "2024-01-15 00:00:00 GMT");
    assert_eq!(r[1].viewer_local, "2024-01-15 09:00:00 JST");
}

#[test]
fn anchored_instant_reads_back_in_its_zone() {
    let ny = zone("America/New_York");
    let t = resolve(&find_mentions("3pm")[0]).unwrap().unwrap();
    let a = anchor(&t, &ny, JAN_15_NOON).unwrap();
    assert_eq!(a.utc_seconds(), 1705348800);
    assert_eq!(a.local_seconds(), 1705330800);
    let own = a.project(&ny);
    assert_eq!(own.utc_seconds(), a.utc_seconds());
    assert_eq!(own.local_seconds(), a.local_seconds());
    assert_eq!(own.render(), a.render());
    let tr = translate(&a, &ny);
    assert_eq!(tr.sender_local, tr.viewer_local);
}

#[test]
fn projecting_there_and_back_recovers_the_instant() {
    let ny = zone("America/New_York");
    let tokyo = zone("Asia/Tokyo");
    let t = resolve(&find_mentions("9:45am")[0]).unwrap().unwrap();
    let a = anchor(&t, &ny, JAN_15_NOON).unwrap();
    let there = a.project(&tokyo);
    assert_eq!(there.local_seconds(), a.utc_seconds() + 9 * 3600);
    let back = there.project(&ny);
    assert_eq!(back.utc_seconds(), a.utc_seconds());
    assert_eq!(back.local_seconds(), a.local_seconds());
    assert_eq!(back.zone().as_str(), "America/New_York");
}

#[test]
fn an_invalid_mention_drops_only_itself() {
    let r = translate_message(
        "13pm, 25:00 or 4pm, maybe 7",
        &zone("Europe/London"),
        &zone("Europe/London"),
        JAN_15_NOON,
    );
    assert_eq!(r.len(), 1);
    assert_eq!(r[0].sender_local, "2024-01-15 16:00:00 GMT");
}

#[test]
fn compose_empty_is_empty() {
    assert_eq!(compose(&Vec::new()), "");
}

#[test]
fn compose_one_line_per_result_in_order() {
    let rs = vec![
        TranslationResult { sender_local: "a".to_string(), viewer_local: "b".to_string() },
        TranslationResult { sender_local: "c".to_string(), viewer_local: "d".to_string() },
        TranslationResult { sender_local: "e".to_string(), viewer_local: "f".to_string() },
    ];
    let body = compose(&rs);
    let lines: Vec<&str> = body.split('\n').collect();
    assert_eq!(lines.len(), 3);
    assert_eq!(lines[0], "The time `a` was mentioned – in your timezone this is `b`.");
    assert_eq!(lines[1], "The time `c` was mentioned – in your timezone this is `d`.");
    assert_eq!(lines[2], "The time `e` was mentioned – in your timezone this is `f`.");
}

#[test]
fn reactor_without_timezone_is_told_so() {
    let ny = zone("America/New_York");
    let r = reaction_outcome("Let's meet at 3pm", Some(&ny), None, JAN_15_NOON);
    assert!(matches!(r, ReactionOutcome::ReactorNotConfigured));
}

#[test]
fn sender_without_timezone_is_reported() {
    let ny = zone("America/New_York");
    let r = reaction_outcome("Let's meet at 3pm", None, Some(&ny), JAN_15_NOON);
    assert!(matches!(r, ReactionOutcome::SenderNotConfigured));
    let r = reaction_outcome("Let's meet at 3pm", None, None, JAN_15_NOON);
    assert!(matches!(r, ReactionOutcome::SenderNotConfigured));
}

#[test]
fn nothing_translatable_sends_nothing() {
    let ny = zone("America/New_York");
    let r = reaction_outcome("I scored 14 points", Some(&ny), Some(&ny), JAN_15_NOON);
    assert!(matches!(r, ReactionOutcome::NothingToSend));
}

#[test]
fn reaction_notifies_with_every_translation() {
    let ny = zone("America/New_York");
    let london = zone("Europe/London");
    match reaction_outcome("3pm or 16:30?", Some(&ny), Some(&london), JAN_15_NOON) {
        ReactionOutcome::Notify(body) => assert_eq!(
            body,
            "The time `2024-01-15 15:00:00 EST` was mentioned – in your timezone this is `2024-01-15 20:00:00 GMT`.\n\
             The time `2024-01-15 16:30:00 EST` was mentioned – in your timezone this is `2024-01-15 21:30:00 GMT`."
        ),
        _ => panic!("expected a notification"),
    }
}

#[test]
fn missing_zones_need_no_clock() {
    let ny = zone("America/New_York");
    let r = reaction_outcome("at 3pm", Some(&ny), None, i64::MAX);
    assert!(matches!(r, ReactionOutcome::ReactorNotConfigured));
}

#[test]
fn posted_messages() {
    assert_eq!(message_action("~set_timezone Europe/London", true, false), MessageAction::Ignore);
    assert_eq!(message_action("no times here", true, false), MessageAction::Ignore);
    assert_eq!(message_action("at 3pm", true, false), MessageAction::MarkForTranslation);
    assert_eq!(message_action("at 3pm", false, false), MessageAction::AskForTimezone);
    assert_eq!(message_action("at 3pm", false, true), MessageAction::Ignore);
}
