use notify_chime::cli::{parse_args, usage};

fn strings(items: &[&str]) -> Vec<String> {
    items.iter().map(|s| s.to_string()).collect()
}

const USAGE: &str = "Usage: codex-notify-chime [--verbose] <NOTIFICATION_JSON> (expected a single JSON argument)";

#[test]
fn single_payload_is_accepted() {
    let args = strings(&[r#"{"type":"agent-turn-complete"}"#]);
    assert_eq!(
        parse_args(&args),
        Ok((r#"{"type":"agent-turn-complete"}"#.to_string(), false))
    );
}

#[test]
fn leading_verbose_flag_is_taken() {
    let args = strings(&["--verbose", "{}"]);
    assert_eq!(parse_args(&args), Ok(("{}".to_string(), true)));
}

#[test]
fn no_arguments_give_usage() {
    assert_eq!(parse_args(&Vec::new()), Err(USAGE.to_string()));
}

#[test]
fn verbose_flag_alone_gives_usage() {
    assert_eq!(parse_args(&strings(&["--verbose"])), Err(USAGE.to_string()));
}

#[test]
fn two_payloads_give_usage() {
    assert_eq!(parse_args(&strings(&["{}", "{}"])), Err(USAGE.to_string()));
    assert_eq!(
        parse_args(&strings(&["--verbose", "{}", "{}"])),
        Err(USAGE.to_string())
    );
}

#[test]
fn verbose_flag_after_payload_is_a_second_argument() {
    assert_eq!(parse_args(&strings(&["{}", "--verbose"])), Err(USAGE.to_string()));
}

#[test]
fn usage_text_is_exact() {
    assert_eq!(usage(), USAGE);
}

#[test]
fn usage_is_a_single_line() {
    let msg = parse_args(&Vec::new()).unwrap_err();
    assert!(!msg.contains('\n'));
    assert!(msg.starts_with("Usage: "));
}
