use reminder_bot::callback::{handle_callback, split_payload};
use reminder_bot::command::Command;
use reminder_bot::command::parse_command;
use reminder_bot::router::{handle_message, respond, Reply};
use reminder_bot::text::{split_str, str_eq};

const HELP_TEXT: &str = "The following commands are supported:\n/help - shows this message\n/ping - checks if the bot is still alive\n/callbacktest - test for an inline keyboard callback\n/setreminder - set a reminder using UNIX cron formatting";
const FALLBACK_TEXT: &str = "Unrecognized command. Send /help for the list of supported commands.";
const INVALID_CALLBACK_TEXT: &str = "<b>Error:</b> Invalid callback. This callback is not working and possibly won't work either.";

#[test]
fn parse_help() {
    assert!(matches!(parse_command("/help"), Some(Command::Help)));
}

#[test]
fn parse_ping() {
    assert!(matches!(parse_command("/ping"), Some(Command::Ping)));
}

#[test]
fn parse_callback_test() {
    assert!(matches!(parse_command("/callbacktest"), Some(Command::CallbackTest)));
}

#[test]
fn parse_set_reminder() {
    match parse_command("/setreminder 0 12 * * 1") {
        Some(Command::SetReminder { minute, hour, day_of_month, month, day_of_week }) => {
            assert_eq!(minute, "0");
            assert_eq!(hour, "12");
            assert_eq!(day_of_month, "*");
            assert_eq!(month, "*");
            assert_eq!(day_of_week, "1");
        }
        other => panic!("expected a reminder command, got {:?}", other.is_some()),
    }
}

#[test]
fn parse_rejects_wrong_arity() {
    assert!(parse_command("/setreminder 0 12").is_none());
    assert!(parse_command("/setreminder 0 12 * * 1 extra").is_none());
    assert!(parse_command("/help me").is_none());
}

#[test]
fn parse_rejects_unknown_text() {
    assert!(parse_command("hello").is_none());
    assert!(parse_command("").is_none());
    assert!(parse_command("/pong").is_none());
}

#[test]
fn help_reply_lists_commands() {
    match handle_message("/help") {
        Reply::Message { text } => assert_eq!(text, HELP_TEXT),
        _ => panic!("expected a plain message"),
    }
}

#[test]
fn ping_reply_is_pong() {
    match handle_message("/ping") {
        Reply::Message { text } => assert_eq!(text, "Pong!"),
        _ => panic!("expected a plain message"),
    }
}

#[test]
fn unrecognized_text_gets_fallback() {
    match handle_message("what is this") {
        Reply::Message { text } => assert_eq!(text, FALLBACK_TEXT),
        _ => panic!("expected a plain message"),
    }
}

#[test]
fn reminder_command_is_silent() {
    assert!(matches!(handle_message("/setreminder 0 12 * * 1"), Reply::Silent));
}

#[test]
fn callback_test_builds_keyboard() {
    match handle_message("/callbacktest") {
        Reply::Keyboard { text, rows } => {
            assert_eq!(text, "Reminder test");
            assert_eq!(rows.len(), 1);
            assert_eq!(rows[0].len(), 2);
            assert_eq!(rows[0][0].label, "Yes");
            assert_eq!(rows[0][1].label, "No");
            let yes_payload = &rows[0][0].payload;
            let no_payload = &rows[0][1].payload;
            assert!(yes_payload.starts_with("Yes_"));
            assert!(no_payload.starts_with("No_"));
            let yes_id = &yes_payload["Yes_".len()..];
            let no_id = &no_payload["No_".len()..];
            assert_eq!(yes_id, no_id);
            assert_eq!(yes_id.len(), 24);
            assert!(yes_id.chars().all(|c| c.is_ascii_alphanumeric()));
        }
        _ => panic!("expected a keyboard message"),
    }
}

#[test]
fn separate_invocations_get_distinct_identifiers() {
    let first = match handle_message("/callbacktest") {
        Reply::Keyboard { rows, .. } => rows[0][0].payload.clone(),
        _ => panic!("expected a keyboard message"),
    };
    let second = match handle_message("/callbacktest") {
        Reply::Keyboard { rows, .. } => rows[0][0].payload.clone(),
        _ => panic!("expected a keyboard message"),
    };
    assert_ne!(first, second);
}

#[test]
fn respond_embeds_given_identifier() {
    match respond(&Command::CallbackTest, "abc123") {
        Reply::Keyboard { rows, .. } => {
            assert_eq!(rows[0][0].payload, "Yes_abc123");
            assert_eq!(rows[0][1].payload, "No_abc123");
        }
        _ => panic!("expected a keyboard message"),
    }
}

#[test]
fn schedule_expression_joins_fields() {
    let command = Command::SetReminder {
        minute: String::from("0"),
        hour: String::from("12"),
        day_of_month: String::from("*"),
        month: String::from("*"),
        day_of_week: String::from("1"),
    };
    assert_eq!(command.schedule_expression().unwrap(), "0 12 * * 1");
}

#[test]
fn schedule_expression_absent_for_other_commands() {
    assert!(Command::Help.schedule_expression().is_none());
    assert!(Command::Ping.schedule_expression().is_none());
}

#[test]
fn wellformed_callback_is_echoed_and_acknowledged() {
    let decision = handle_callback("Yes_abc123");
    assert_eq!(decision.reply, "Yes_abc123");
    assert!(decision.acknowledge);
}

#[test]
fn wellformed_callback_with_empty_halves() {
    let decision = handle_callback("_");
    assert_eq!(decision.reply, "_");
    assert!(decision.acknowledge);
}

#[test]
fn callback_with_no_delimiter_is_rejected() {
    let decision = handle_callback("Yes");
    assert_eq!(decision.reply, INVALID_CALLBACK_TEXT);
    assert!(!decision.acknowledge);
}

#[test]
fn callback_with_two_delimiters_is_rejected() {
    let decision = handle_callback("a_b_c");
    assert_eq!(decision.reply, INVALID_CALLBACK_TEXT);
    assert!(!decision.acknowledge);
}

#[test]
fn empty_callback_is_rejected() {
    let decision = handle_callback("");
    assert_eq!(decision.reply, INVALID_CALLBACK_TEXT);
    assert!(!decision.acknowledge);
}

#[test]
fn split_payload_returns_both_halves() {
    let (choice, id) = split_payload("No_xyz").unwrap();
    assert_eq!(choice, "No");
    assert_eq!(id, "xyz");
}

#[test]
fn split_payload_rejects_wrong_shapes() {
    assert!(split_payload("No").is_none());
    assert!(split_payload("a_b_c").is_none());
    assert!(split_payload("").is_none());
}

#[test]
fn split_str_keeps_empty_parts() {
    let parts = split_str("a_b", '_');
    assert_eq!(parts, vec!["a".to_string(), "b".to_string()]);
    let parts = split_str("__", '_');
    assert_eq!(parts, vec!["".to_string(), "".to_string(), "".to_string()]);
    let parts = split_str("", '_');
    assert_eq!(parts, vec!["".to_string()]);
}

#[test]
fn str_eq_compares_contents() {
    assert!(str_eq("abc", "abc"));
    assert!(!str_eq("abc", "abd"));
    assert!(!str_eq("abc", "ab"));
    assert!(str_eq("", ""));
}
