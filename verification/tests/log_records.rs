use ruray::logging::{LogLevel, parse_log_line};

#[test]
fn log_level_tags() {
    assert_eq!(LogLevel::Debug.as_str(), "DEBUG");
    assert_eq!(LogLevel::Info.as_str(), "INFO");
    assert_eq!(LogLevel::Warn.as_str(), "WARN");
    assert_eq!(LogLevel::Error.as_str(), "ERROR");
}

#[test]
fn parse_log_line_extracts_the_three_parts() {
    let line = "[2024-01-01 12:00:00.000] [INFO] proxy started on port 10087";
    let e = parse_log_line(line).expect("well-formed line must parse");
    assert_eq!(e.timestamp, "2024-01-01 12:00:00.000");
    assert_eq!(e.level, "info");
    assert_eq!(e.message, "proxy started on port 10087");
    assert!(e.details.is_none());
}

#[test]
fn parse_log_line_lowercases_known_levels() {
    let warn = parse_log_line("[2024-01-01 12:00:00.000] [WARN] something odd happened").unwrap();
    assert_eq!(warn.level, "warn");
    let err = parse_log_line("[2024-01-01 12:00:00.000] [ERROR] something bad happened").unwrap();
    assert_eq!(err.level, "error");
    let dbg = parse_log_line("[2024-01-01 12:00:00.000] [DEBUG] something small happened").unwrap();
    assert_eq!(dbg.level, "debug");
}

#[test]
fn parse_log_line_rejects_short_lines() {
    assert!(parse_log_line("[short] [INFO] x").is_none());
    assert!(parse_log_line("").is_none());
}

#[test]
fn parse_log_line_rejects_lines_without_separators() {
    assert!(parse_log_line("this line is long enough but has no bracketed fields").is_none());
}

#[test]
fn parse_log_line_keeps_message_brackets() {
    let line = "[2024-01-01 12:00:00.000] [INFO] value was [42] (see log)";
    let e = parse_log_line(line).unwrap();
    assert_eq!(e.message, "value was [42] (see log)");
}
