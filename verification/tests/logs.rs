use cobia::logs::{
    assertions_failures, check_arguments, color_of, count_brackets, disable_log_lvl, fmt_duration_log,
    fmt_log, format_single_digit_value, init, init_logging, is_init, level_string, push_log,
    send_log, slice_brackets_str, validate_msg, wrap_message, Color, DisableRefused, Level, Log,
    LogQueue, LogSystem, LOG_BUFFER_SIZE, LOG_MAX_QUEUE_SIZE, MAX_LINE_LEN, TAB_MESSAGE,
};
use cobia::text::{chars_of, decimal_string, holds_char, same_text, string_of};

#[test]
fn numbers_under_nine_get_a_zero_in_front() {
    assert_eq!(format_single_digit_value(0), "00");
    assert_eq!(format_single_digit_value(8), "08");
    assert_eq!(format_single_digit_value(9), "9");
    assert_eq!(format_single_digit_value(10), "10");
    assert_eq!(format_single_digit_value(123), "123");
}

#[test]
fn time_stamp_counts_hours_minutes_seconds_and_hundredths() {
    assert_eq!(fmt_duration_log(0, 0), "[00:00:00:00]");
    assert_eq!(fmt_duration_log(3 * 3600 + 25 * 60 + 7, 450_000_000), "[03:25:07:45]");
    assert_eq!(fmt_duration_log(59, 999_999_999), "[00:00:59:99]");
    assert_eq!(fmt_duration_log(3600, 9_999_999), "[01:00:00:00]");
    assert_eq!(fmt_duration_log(100 * 3600 + 9 * 60 + 9, 90_000_000), "[100:9:9:9]");
    assert_eq!(fmt_duration_log(u64::MAX, u32::MAX), "[5124095576030431:00:15:429]");
}

#[test]
fn entry_holds_time_level_and_message() {
    assert_eq!(fmt_log(Level::FATAL, "this is a test", 0, 0), "[00:00:00:00] [FATAL]: this is a test");
    assert_eq!(fmt_log(Level::WARN, "w", 61, 0), "[00:01:01:00] [WARN]:  w");
    assert_eq!(level_string(Level::ERROR), "[ERROR]:");
    assert_eq!(level_string(Level::INFO), "[INFO]: ");
    assert_eq!(level_string(Level::DEBUG), "[DEBUG]:");
    assert_eq!(level_string(Level::TRACE), "[TRACE]:");
    assert_eq!(color_of(Level::FATAL), Color::Red);
    assert_eq!(color_of(Level::ERROR), Color::Red);
    assert_eq!(color_of(Level::WARN), Color::Yellow);
    assert_eq!(color_of(Level::INFO), Color::Blue);
    assert_eq!(color_of(Level::DEBUG), Color::Green);
    assert_eq!(color_of(Level::TRACE), Color::Magenta);
}

#[test]
fn long_messages_are_broken_into_lines() {
    assert_eq!(MAX_LINE_LEN, 90);
    assert_eq!(wrap_message("short"), "short");
    assert_eq!(wrap_message(""), "");
    let exact = "a".repeat(90);
    assert_eq!(wrap_message(&exact), exact);
    let long = format!("{}{}{}", "a".repeat(90), "b".repeat(90), "c".repeat(5));
    let expected = format!("{}{}{}{}{}", "a".repeat(90), TAB_MESSAGE, "b".repeat(90), TAB_MESSAGE, "c".repeat(5));
    assert_eq!(wrap_message(&long), expected);
    let accents = "é".repeat(91);
    assert_eq!(wrap_message(&accents), format!("{}{}{}", "é".repeat(90), TAB_MESSAGE, "é"));
    let log = Log::new(Level::INFO, &long, 1, 0);
    assert_eq!(log.as_string(), format!("[00:00:01:00] [INFO]:  {}", expected));
    assert_eq!(log.get(), &log.as_string());
}

#[test]
fn entries_are_cut_to_the_buffer() {
    let huge = "x".repeat(30_000);
    let log = Log::new(Level::ERROR, &huge, 0, 0);
    assert_eq!(log.get().chars().count(), LOG_BUFFER_SIZE);
    assert!(log.get().starts_with("[00:00:00:00] [ERROR]: xxxx"));
    let fits = Log::new(Level::ERROR, "x", 0, 0);
    assert_eq!(fits.get(), "[00:00:00:00] [ERROR]: x");
}

#[test]
fn brackets_are_sliced_and_counted() {
    let (slices, count) = slice_brackets_str("a{}b{}");
    assert_eq!(slices, vec!["a", "{}", "b", "{}", ""]);
    assert_eq!(count, 2);
    let (slices, count) = slice_brackets_str("no brackets { here }");
    assert_eq!(slices, vec!["no brackets { here }"]);
    assert_eq!(count, 0);
    let (slices, count) = slice_brackets_str("{{}}");
    assert_eq!(slices, vec!["{", "{}", "}"]);
    assert_eq!(count, 1);
    let (slices, count) = slice_brackets_str("{}{}{");
    assert_eq!(slices, vec!["", "{}", "", "{}", "{"]);
    assert_eq!(count, 2);
    assert_eq!(slice_brackets_str(""), (vec!["".to_string()], 0));
    assert_eq!(count_brackets("é{}é{}"), 2);
}

#[test]
fn arguments_replace_brackets_in_order() {
    assert_eq!(validate_msg("Didn't find layer {}", &["VK_LAYER_KHRONOS_validation"]), "Didn't find layer VK_LAYER_KHRONOS_validation");
    assert_eq!(validate_msg("{}: {}", &["VLK", "message"]), "VLK: message");
    assert_eq!(validate_msg("{} and {} and {}", &["a", "b"]), "a and b and ");
    assert_eq!(validate_msg("only {}", &["one", "two"]), "only one");
    assert_eq!(validate_msg("none {}", &[]), "none ");
    assert_eq!(validate_msg("plain", &["unused"]), "plain");
    assert_eq!(validate_msg("{{}}", &["x"]), "{x}");
    assert_eq!(validate_msg("é{}é", &["ü"]), "éüé");
    assert_eq!(check_arguments("{} {}", &["a", "b"]), None);
    assert_eq!(
        check_arguments("only {}", &["one", "two", "three"]),
        Some("the message:[ only {} ] contains 1 format bracket(s) but you have passed 3 arguments ".to_string())
    );
}

#[test]
fn queue_takes_entries_until_it_is_full() {
    let mut queue = LogQueue::new();
    assert_eq!(queue.len(), 0);
    assert_eq!(queue.last_text(), "");
    for i in 0..(LOG_MAX_QUEUE_SIZE - 1) {
        assert!(!queue.is_full());
        if i % 2 == 0 {
            queue.push(Log::new(Level::INFO, "even", 0, 0));
        } else {
            queue.append(Log::new(Level::INFO, "odd", 0, 0));
        }
    }
    assert_eq!(queue.len(), 299);
    assert!(queue.is_full());
    assert_eq!(queue.last_text(), "[00:00:00:00] [INFO]:  even");
}

#[test]
fn levels_can_be_switched_off_except_the_grave_ones() {
    let mut sys = LogSystem::new(false);
    assert!(!is_init(&sys));
    assert!(!sys.is_ready());
    init(&mut sys, 0, 0);
    assert!(is_init(&sys) && sys.is_init() && sys.is_ready());
    for level in [Level::FATAL, Level::ERROR, Level::WARN, Level::INFO, Level::DEBUG, Level::TRACE] {
        assert!(sys.is_enabled(level));
    }
    assert_eq!(disable_log_lvl(&mut sys, Level::FATAL), Err(DisableRefused::AlwaysLogged));
    assert_eq!(disable_log_lvl(&mut sys, Level::ERROR), Err(DisableRefused::AlwaysLogged));
    assert_eq!(disable_log_lvl(&mut sys, Level::WARN), Ok(()));
    assert_eq!(disable_log_lvl(&mut sys, Level::TRACE), Ok(()));
    assert_eq!(sys.disable(Level::DEBUG), Ok(()));
    assert!(sys.is_enabled(Level::ERROR) && sys.is_enabled(Level::INFO));
    assert!(!sys.is_enabled(Level::WARN) && !sys.is_enabled(Level::TRACE) && !sys.is_enabled(Level::DEBUG));

    let (shown, color) = push_log(&mut sys, "dropped", Level::WARN, 5, 0);
    assert_eq!(shown, "[00:00:00:00] [TRACE]: Start the log subsystem");
    assert_eq!(color, Color::Yellow);
    let (shown, color) = sys.push_log(Level::INFO, "kept", 5, 0);
    assert_eq!(shown, "[00:00:05:00] [INFO]:  kept");
    assert_eq!(color, Color::Blue);

    let mut release = LogSystem::new(true);
    init_logging(&mut release, 0, 0);
    assert!(!release.is_enabled(Level::DEBUG) && !release.is_enabled(Level::INFO));
    assert!(release.is_enabled(Level::TRACE) && release.is_enabled(Level::WARN));
    assert_eq!(disable_log_lvl(&mut release, Level::DEBUG), Err(DisableRefused::ReleaseMode));
    assert_eq!(disable_log_lvl(&mut release, Level::TRACE), Err(DisableRefused::ReleaseMode));
    assert!(release.is_enabled(Level::TRACE));
    assert_eq!(disable_log_lvl(&mut release, Level::INFO), Ok(()));
}

#[test]
fn fatal_messages_shut_the_engine_down() {
    let mut sys = LogSystem::new(false);
    init(&mut sys, 0, 0);
    let sent = send_log(&mut sys, "disk on fire", Level::FATAL, 2, 500_000_000);
    assert!(sent.shutdown);
    assert_eq!(sent.color, Color::Red);
    assert_eq!(sent.shown, "[00:00:02:50] [FATAL]: disk on fire");
    let sent = send_log(&mut sys, "recoverable", Level::ERROR, 3, 0);
    assert!(!sent.shutdown);
    assert_eq!(sent.shown, "[00:00:03:00] [ERROR]: recoverable");
    let sent = send_log(&mut sys, "tracing", Level::TRACE, 3, 0);
    assert_eq!((sent.shutdown, sent.color), (false, Color::Magenta));
    assert_eq!(sent.shown, "[00:00:03:00] [TRACE]: tracing");
    let sent = assertions_failures(&mut sys, "a == b", "they differ", "main.rs", 42, 4, 0);
    assert!(sent.shutdown);
    assert_eq!(sent.shown, "[00:00:04:00] [FATAL]: ASSERTION FAILED: a == b in file main.rs at line 42 Reason: they differ ");
}

#[test]
fn text_helpers_agree_with_the_standard_library() {
    assert_eq!(chars_of("héllo"), vec!['h', 'é', 'l', 'l', 'o']);
    assert_eq!(string_of(&vec!['h', 'é', 'l', 'l', 'o']), "héllo");
    assert_eq!(string_of(&vec![]), "");
    assert!(same_text("abc", "abc"));
    assert!(!same_text("abc", "abd"));
    assert!(!same_text("abc", "ab"));
    assert!(holds_char("a\0b", '\0'));
    assert!(!holds_char("ab", '\0'));
    for n in [0u64, 7, 10, 99, 100, 65535, 1_000_000_007, u64::MAX] {
        assert_eq!(decimal_string(n), n.to_string());
    }
}
