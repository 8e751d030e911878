use zero2prod::telemetry::{level_name, parse_log_level, LogLevel, TracingOptions};

#[test]
fn a_level_name_is_read_whatever_its_case() {
    assert_eq!(parse_log_level(Some(String::from("INFO")), None), LogLevel::Info);
    assert_eq!(parse_log_level(Some(String::from("debug")), None), LogLevel::Debug);
    assert_eq!(parse_log_level(Some(String::from("TrAcE")), None), LogLevel::Trace);
    assert_eq!(parse_log_level(Some(String::from("warn")), None), LogLevel::Warn);
    assert_eq!(parse_log_level(Some(String::from("ERROR")), None), LogLevel::Error);
    assert_eq!(parse_log_level(Some(String::from("off")), None), LogLevel::Off);
}

#[test]
fn text_that_names_no_level_falls_back_to_the_default() {
    assert_eq!(
        parse_log_level(Some(String::from("bogus")), Some(LogLevel::Info)),
        LogLevel::Info
    );
    assert_eq!(parse_log_level(Some(String::from("infos")), Some(LogLevel::Warn)), LogLevel::Warn);
    assert_eq!(parse_log_level(Some(String::from("")), Some(LogLevel::Error)), LogLevel::Error);
}

#[test]
fn a_missing_variable_falls_back_to_the_default() {
    assert_eq!(parse_log_level(None, Some(LogLevel::Debug)), LogLevel::Debug);
}

#[test]
fn without_a_default_the_fallback_is_off() {
    assert_eq!(parse_log_level(None, None), LogLevel::Off);
    assert_eq!(parse_log_level(Some(String::from("bogus")), None), LogLevel::Off);
}

#[test]
fn levels_print_as_their_lowercase_names() {
    assert_eq!(level_name(LogLevel::Off), "off");
    assert_eq!(level_name(LogLevel::Error), "error");
    assert_eq!(level_name(LogLevel::Warn), "warn");
    assert_eq!(level_name(LogLevel::Info), "info");
    assert_eq!(level_name(LogLevel::Debug), "debug");
    assert_eq!(level_name(LogLevel::Trace), "trace");
}

#[test]
fn the_default_options_log_the_crate_at_info_and_silence_the_http_layer() {
    let options = TracingOptions::default();
    assert_eq!(options.crate_level, LogLevel::Info);
    assert_eq!(options.tower_http_level, LogLevel::Off);
}
