use sands::logging::{
    init_logger, is_enabled, log_line, push_decimal, timestamp_style, Hue, LogAction, LogLevel,
    LogRelocation, Logger, RelocationStep, Severity, TextStyle,
};

const LEVELS: [LogLevel; 4] = [LogLevel::Important, LogLevel::Info, LogLevel::Debug, LogLevel::Trace];
const SEVERITIES: [Severity; 5] =
    [Severity::Error, Severity::Warn, Severity::Info, Severity::Debug, Severity::Trace];

#[test]
fn thresholds_of_levels() {
    assert_eq!(LogLevel::Important.threshold(), Severity::Warn);
    assert_eq!(LogLevel::Info.threshold(), Severity::Info);
    assert_eq!(LogLevel::Debug.threshold(), Severity::Debug);
    assert_eq!(LogLevel::Trace.threshold(), Severity::Trace);
}

#[test]
fn important_level_logs_only_errors_and_warnings() {
    assert!(is_enabled(LogLevel::Important, Severity::Error));
    assert!(is_enabled(LogLevel::Important, Severity::Warn));
    assert!(!is_enabled(LogLevel::Important, Severity::Info));
    assert!(!is_enabled(LogLevel::Important, Severity::Debug));
    assert!(!is_enabled(LogLevel::Important, Severity::Trace));
}

#[test]
fn info_and_debug_levels() {
    assert!(is_enabled(LogLevel::Info, Severity::Info));
    assert!(!is_enabled(LogLevel::Info, Severity::Debug));
    assert!(is_enabled(LogLevel::Debug, Severity::Debug));
    assert!(!is_enabled(LogLevel::Debug, Severity::Trace));
    for s in SEVERITIES {
        assert!(is_enabled(LogLevel::Trace, s));
    }
}

#[test]
fn errors_and_warnings_logged_at_every_level() {
    for level in LEVELS {
        assert!(is_enabled(level, Severity::Error));
        assert!(is_enabled(level, Severity::Warn));
    }
}

#[test]
fn more_verbose_level_logs_more() {
    for (i, a) in LEVELS.iter().enumerate() {
        for b in &LEVELS[i..] {
            for s in SEVERITIES {
                if is_enabled(*a, s) {
                    assert!(is_enabled(*b, s));
                }
            }
        }
    }
}

#[test]
fn enabled_matches_threshold() {
    for level in LEVELS {
        for s in SEVERITIES {
            assert_eq!(is_enabled(level, s), s.rank() <= level.threshold().rank());
        }
        assert!(is_enabled(level, level.threshold()));
    }
}

#[test]
fn severity_labels_and_ranks() {
    assert_eq!(Severity::Error.label(), "ERROR");
    assert_eq!(Severity::Warn.label(), "WARN");
    assert_eq!(Severity::Info.label(), "INFO");
    assert_eq!(Severity::Debug.label(), "DEBUG");
    assert_eq!(Severity::Trace.label(), "TRACE");
    let ranks: Vec<u8> = SEVERITIES.iter().map(|s| s.rank()).collect();
    assert_eq!(ranks, vec![1, 2, 3, 4, 5]);
}

#[test]
fn severity_styles() {
    assert_eq!(Severity::Error.style(), TextStyle { hue: Hue::Red, italic: false });
    assert_eq!(Severity::Warn.style(), TextStyle { hue: Hue::Yellow, italic: false });
    assert_eq!(Severity::Info.style(), TextStyle { hue: Hue::Green, italic: false });
    assert_eq!(Severity::Debug.style(), TextStyle { hue: Hue::BrightBlue, italic: false });
    assert_eq!(Severity::Trace.style(), TextStyle { hue: Hue::White, italic: true });
    assert_eq!(timestamp_style(), TextStyle { hue: Hue::Blue, italic: true });
}

#[test]
fn log_line_layout() {
    assert_eq!(
        log_line("INFO", "12:34:56.789", "Heatwave", "Launching game"),
        "[INFO] 12:34:56.789 | Heatwave: Launching game\n"
    );
    assert_eq!(log_line("", "", "", ""), "[]  | : \n");
}

#[test]
fn logger_skips_disabled_records() {
    let logger = Logger::new(LogLevel::Important, true);
    assert!(!logger.enabled(Severity::Info));
    assert!(matches!(logger.log(Severity::Info, "INFO", "t", "x", "m"), LogAction::Skip));
}

#[test]
fn logger_emits_and_writes_enabled_records() {
    let logger = Logger::new(LogLevel::Debug, true);
    match logger.log(Severity::Warn, "WARN", "00:00:00.000", "Net", "slow") {
        LogAction::Emit { line, write_to_file } => {
            assert_eq!(line, "[WARN] 00:00:00.000 | Net: slow\n");
            assert!(write_to_file);
        }
        LogAction::Skip => panic!("record should be emitted"),
    }
    assert!(logger.flush());
}

#[test]
fn logger_without_file_only_prints() {
    let logger = Logger::new(LogLevel::Trace, false);
    match logger.log(Severity::Trace, "TRACE", "t", "x", "m") {
        LogAction::Emit { write_to_file, .. } => assert!(!write_to_file),
        LogAction::Skip => panic!("record should be emitted"),
    }
    assert!(!logger.flush());
}

#[test]
fn write_failure_is_permanent() {
    let mut logger = Logger::new(LogLevel::Trace, true);
    logger.record_write_failure();
    for s in SEVERITIES {
        match logger.log(s, "L", "t", "x", "m") {
            LogAction::Emit { line, write_to_file } => {
                assert_eq!(line, "[L] t | x: m\n");
                assert!(!write_to_file);
            }
            LogAction::Skip => panic!("record should still reach the terminal"),
        }
    }
    assert!(!logger.flush());
    logger.record_write_failure();
    assert!(!logger.flush());
}

struct Silent;

impl log::Log for Silent {
    fn enabled(&self, _: &log::Metadata) -> bool {
        true
    }
    fn log(&self, _: &log::Record) {}
    fn flush(&self) {}
}

#[test]
fn init_logger_gives_the_threshold_once_registered() {
    let registered = log::set_boxed_logger(Box::new(Silent));
    assert!(registered.is_ok());
    assert_eq!(init_logger(registered, LogLevel::Important).ok(), Some(Severity::Warn));
    let again = log::set_boxed_logger(Box::new(Silent));
    assert!(again.is_err());
    assert!(init_logger(again, LogLevel::Trace).is_err());
}

#[test]
fn init_logger_thresholds_for_every_level() {
    for (level, max) in [
        (LogLevel::Important, Severity::Warn),
        (LogLevel::Info, Severity::Info),
        (LogLevel::Debug, Severity::Debug),
        (LogLevel::Trace, Severity::Trace),
    ] {
        assert_eq!(init_logger(Ok(()), level).ok(), Some(max));
        for s in SEVERITIES {
            assert_eq!(is_enabled(level, s), s.rank() <= max.rank());
        }
    }
}

#[test]
fn decimal_notation() {
    for (n, text) in [(0usize, "0"), (7, "7"), (10, "10"), (99, "99"), (1234567890, "1234567890")] {
        let mut s = String::from("n=");
        push_decimal(&mut s, n);
        assert_eq!(s, format!("n={}", text));
    }
    let mut s = String::new();
    push_decimal(&mut s, usize::MAX);
    assert_eq!(s, usize::MAX.to_string());
}

#[test]
fn relocation_names_old_logs() {
    let mut search = LogRelocation::new("./logs/output.log");
    assert_eq!(search.candidate(), "./logs/output.old.1.log");
    match search.next(true) {
        RelocationStep::Probe(p) => assert_eq!(p, "./logs/output.old.2.log"),
        _ => panic!("expected a probe"),
    }
    match search.next(true) {
        RelocationStep::Probe(p) => assert_eq!(p, "./logs/output.old.3.log"),
        _ => panic!("expected a probe"),
    }
    match search.next(false) {
        RelocationStep::Rename(p) => assert_eq!(p, "./logs/output.old.3.log"),
        _ => panic!("expected a rename"),
    }
    assert_eq!(search.candidate(), "./logs/output.old.3.log");
}

#[test]
fn relocation_of_file_without_extension() {
    let search = LogRelocation::new("logs/output");
    assert_eq!(search.candidate(), "logs/output.old.1.");
    let hidden = LogRelocation::new(".log");
    assert_eq!(hidden.candidate(), ".log.old.1.");
    let dotted = LogRelocation::new("a.b/run.tar.gz");
    assert_eq!(dotted.candidate(), "a.b/run.tar.old.1.gz");
}

#[test]
fn relocation_candidates_are_distinct() {
    let mut search = LogRelocation::new("out.log");
    let mut seen = vec![search.candidate()];
    for _ in 0..120 {
        match search.next(true) {
            RelocationStep::Probe(p) => {
                assert!(!seen.contains(&p));
                seen.push(p);
            }
            _ => panic!("expected a probe"),
        }
    }
    assert_eq!(seen.last().unwrap(), "out.old.121.log");
}
