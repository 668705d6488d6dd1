//! Command parsing, the friday countdown, and the small helpers.

use slay_bot::commands::{menu_commands, parse_command, Command};
use slay_bot::handlers::friday::{friday, friday_finish};
use slay_bot::handlers::{GenerationRequest, Reply};
use slay_bot::utils::{
    format_time_delta, get_time_until_friday, moscow_now, str_eq, str_is_blank, u64_to_string,
    MoscowNow, TimeDelta,
};

#[test]
fn parse_known_commands() {
    assert!(matches!(parse_command("/help"), Some(Command::Help)));
    assert!(matches!(parse_command("/friday"), Some(Command::Friday)));
    assert!(matches!(parse_command("/model"), Some(Command::Model)));
    assert!(matches!(parse_command("/cancel"), Some(Command::Cancel)));
    assert!(matches!(parse_command("/slay"), Some(Command::Slay)));
    assert!(matches!(parse_command("/rename"), Some(Command::RenameSticker)));
    assert!(matches!(parse_command("/rename_sticker"), Some(Command::RenameSticker)));
    assert!(matches!(parse_command("/delete"), Some(Command::DeleteSticker)));
    assert!(matches!(parse_command("/remove"), Some(Command::DeleteSticker)));
    assert!(matches!(parse_command("/delete_sticker"), Some(Command::DeleteSticker)));
    assert!(matches!(parse_command("/list"), Some(Command::ListStickers)));
    assert!(matches!(parse_command("/list_stickers"), Some(Command::ListStickers)));
}

#[test]
fn parse_commands_with_arguments() {
    match parse_command("/get xdd") {
        Some(Command::Sticker(name)) => assert_eq!(name, "xdd"),
        other => panic!("unexpected parse: {:?}", other),
    }
    match parse_command("/sticker a b") {
        Some(Command::Sticker(name)) => assert_eq!(name, "a b"),
        other => panic!("unexpected parse: {:?}", other),
    }
    match parse_command("/add foo") {
        Some(Command::AddSticker(name)) => assert_eq!(name, "foo"),
        other => panic!("unexpected parse: {:?}", other),
    }
    match parse_command("/add_sticker") {
        Some(Command::AddSticker(name)) => assert_eq!(name, ""),
        other => panic!("unexpected parse: {:?}", other),
    }
}

#[test]
fn parse_rejects_unknown() {
    assert!(parse_command("").is_none());
    assert!(parse_command("hello").is_none());
    assert!(parse_command("/nope").is_none());
    assert!(parse_command("/ help").is_none());
}

#[test]
fn menu_holds_the_eight_commands() {
    let labels = menu_commands();
    assert_eq!(
        labels,
        vec![
            "/help".to_string(),
            "/friday".to_string(),
            "/sticker".to_string(),
            "/list_stickers".to_string(),
            "/add_sticker".to_string(),
            "/rename_sticker".to_string(),
            "/delete_sticker".to_string(),
            "/cancel".to_string(),
        ]
    );
}

#[test]
fn countdown_to_friday() {
    // Thursday at midnight: exactly one day left
    let thursday = MoscowNow { weekday_from_monday: 4, secs_into_day: 0 };
    let td = get_time_until_friday(&thursday).unwrap();
    assert_eq!(td, TimeDelta { days: 1, hours: 0, minutes: 0 });

    // Monday at 13:30:45: three days, ten hours, twenty-nine minutes
    let monday = MoscowNow { weekday_from_monday: 1, secs_into_day: 13 * 3600 + 30 * 60 + 45 };
    let td = get_time_until_friday(&monday).unwrap();
    assert_eq!(td, TimeDelta { days: 3, hours: 10, minutes: 29 });

    // Friday itself: no countdown
    let friday_now = MoscowNow { weekday_from_monday: 5, secs_into_day: 12 };
    assert!(get_time_until_friday(&friday_now).is_none());

    // Saturday: six days
    let saturday = MoscowNow { weekday_from_monday: 6, secs_into_day: 0 };
    let td = get_time_until_friday(&saturday).unwrap();
    assert_eq!(td.days, 6);
}

#[test]
fn time_delta_text() {
    let td = TimeDelta { days: 3, hours: 10, minutes: 29 };
    assert_eq!(format_time_delta(&td), "3 дней, 10 часов, 29 минут");
    assert_eq!(u64_to_string(0), "0");
    assert_eq!(u64_to_string(105), "105");
    assert_eq!(u64_to_string(18446744073709551615), "18446744073709551615");
}

#[test]
fn friday_request_and_fallback() {
    let thursday = MoscowNow { weekday_from_monday: 4, secs_into_day: 0 };
    let o = friday(&thursday);
    assert!(o.replies.is_empty());
    let request = o.generate.unwrap();
    assert_eq!(
        request.input,
        "До нефорской пятницы осталось: 1 дней, 0 часов, 0 минут 🕷️ Готовь свой лучший аутфит. ⛓️"
    );

    let friday_now = MoscowNow { weekday_from_monday: 5, secs_into_day: 0 };
    let o = friday(&friday_now);
    let request = o.generate.unwrap();
    assert_eq!(
        request.input,
        "SLAAAAAY! 💅🔥🖤 ЭТО НЕФОРСКАЯ ПЯТНИЦА, ДЕТКА! 🤘😈⛓️ Время сиять! ✨"
    );

    // a successful generation is sent as it came back
    let sent = friday_finish(
        GenerationRequest { input: "plain".to_string() },
        Some("rephrased".to_string()),
    );
    assert!(matches!(&sent[0], Reply::Text(t) if t == "rephrased"));

    // a failed generation falls back to the plain text: a reply always goes out
    let sent = friday_finish(GenerationRequest { input: "plain".to_string() }, None);
    assert!(matches!(&sent[0], Reply::Text(t) if t == "plain"));
}

#[test]
fn clock_wrapper_stays_in_range() {
    let now = moscow_now();
    assert!((1..=7).contains(&now.weekday_from_monday));
    assert!(now.secs_into_day < 86400);
}

#[test]
fn string_helpers() {
    assert!(str_eq("приве́т", "приве́т"));
    assert!(!str_eq("a", "b"));
    assert!(str_is_blank("  \t\r\n"));
    assert!(str_is_blank(""));
    assert!(!str_is_blank(" x "));
}
