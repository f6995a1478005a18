use ffmpeg_util::lines::{handle_message, LineBuffer, Record};
use ffmpeg_util::log::{
    pass_level, Level, LevelFilter, AV_LOG_DEBUG, AV_LOG_ERROR, AV_LOG_FATAL, AV_LOG_INFO,
    AV_LOG_PANIC, AV_LOG_QUIET, AV_LOG_TRACE, AV_LOG_VERBOSE, AV_LOG_WARNING,
};

fn texts(records: &[Record]) -> Vec<&str> {
    records.iter().map(|r| r.text.as_str()).collect()
}

#[test]
fn partial_line_completed_by_next_message() {
    let mut buf = LineBuffer::new();
    let first = buf.feed(Level::Info, "hello");
    assert!(first.is_empty());
    assert_eq!(buf.pending(), "hello");
    let second = buf.feed(Level::Info, " world\n");
    assert_eq!(texts(&second), vec!["hello world"]);
    assert_eq!(second[0].level, Level::Info);
    assert_eq!(buf.pending(), "");
}

#[test]
fn several_lines_in_one_message() {
    let mut buf = LineBuffer::new();
    let records = buf.feed(Level::Warn, "a\nb\nc");
    assert_eq!(texts(&records), vec!["a", "b"]);
    assert_eq!(buf.pending(), "c");
    let rest = buf.feed(Level::Warn, "\n");
    assert_eq!(texts(&rest), vec!["c"]);
    assert_eq!(buf.pending(), "");
}

#[test]
fn buffers_of_two_threads_stay_apart() {
    let mut one = LineBuffer::new();
    let mut two = LineBuffer::new();
    assert!(one.feed(Level::Info, "first ").is_empty());
    assert!(two.feed(Level::Info, "second ").is_empty());
    assert_eq!(texts(&one.feed(Level::Info, "one\n")), vec!["first one"]);
    assert_eq!(texts(&two.feed(Level::Info, "two\n")), vec!["second two"]);
}

#[test]
fn empty_message_changes_nothing() {
    let mut buf = LineBuffer::new();
    buf.feed(Level::Info, "kept");
    assert!(buf.feed(Level::Info, "").is_empty());
    assert_eq!(buf.pending(), "kept");
}

#[test]
fn terminator_alone_emits_empty_line() {
    let mut buf = LineBuffer::new();
    assert_eq!(texts(&buf.feed(Level::Debug, "\n\n")), vec!["", ""]);
    assert_eq!(buf.pending(), "");
}

#[test]
fn unicode_text_is_kept_whole() {
    let mut buf = LineBuffer::new();
    assert_eq!(texts(&buf.feed(Level::Info, "über\nnaïve")), vec!["über"]);
    assert_eq!(buf.pending(), "naïve");
}

#[test]
fn below_threshold_dropped_and_buffer_untouched() {
    let mut buf = LineBuffer::new();
    let r = handle_message(&mut buf, LevelFilter::Info, AV_LOG_INFO, "pending");
    assert!(r.is_empty());
    let r = handle_message(&mut buf, LevelFilter::Info, AV_LOG_DEBUG, "noise\n");
    assert!(r.is_empty());
    assert_eq!(buf.pending(), "pending");
    let r = handle_message(&mut buf, LevelFilter::Info, AV_LOG_ERROR, " done\n");
    assert_eq!(texts(&r), vec!["pending done"]);
    assert_eq!(r[0].level, Level::Error);
}

#[test]
fn unknown_native_code_dropped() {
    let mut buf = LineBuffer::new();
    let r = handle_message(&mut buf, LevelFilter::Trace, AV_LOG_QUIET, "x\n");
    assert!(r.is_empty());
    let r = handle_message(&mut buf, LevelFilter::Trace, 17, "x\n");
    assert!(r.is_empty());
    assert_eq!(buf.pending(), "");
}

#[test]
fn off_installs_quiet_and_silences() {
    assert_eq!(LevelFilter::Off.to_native(), AV_LOG_QUIET);
    let mut buf = LineBuffer::new();
    for code in [AV_LOG_PANIC, AV_LOG_FATAL, AV_LOG_ERROR, AV_LOG_WARNING, AV_LOG_TRACE] {
        assert!(handle_message(&mut buf, LevelFilter::Off, code, "line\n").is_empty());
    }
    assert_eq!(buf.pending(), "");
    let r = handle_message(&mut buf, LevelFilter::Error, AV_LOG_PANIC, "line\n");
    assert_eq!(texts(&r), vec!["line"]);
}

#[test]
fn native_severity_mapping() {
    assert_eq!(LevelFilter::from_native(AV_LOG_PANIC), LevelFilter::Error);
    assert_eq!(LevelFilter::from_native(AV_LOG_FATAL), LevelFilter::Error);
    assert_eq!(LevelFilter::from_native(AV_LOG_ERROR), LevelFilter::Error);
    assert_eq!(LevelFilter::from_native(AV_LOG_WARNING), LevelFilter::Warn);
    assert_eq!(LevelFilter::from_native(AV_LOG_INFO), LevelFilter::Info);
    assert_eq!(LevelFilter::from_native(AV_LOG_VERBOSE), LevelFilter::Debug);
    assert_eq!(LevelFilter::from_native(AV_LOG_DEBUG), LevelFilter::Debug);
    assert_eq!(LevelFilter::from_native(AV_LOG_TRACE), LevelFilter::Trace);
    assert_eq!(LevelFilter::from_native(AV_LOG_QUIET), LevelFilter::Off);
    assert_eq!(LevelFilter::from_native(20), LevelFilter::Off);
}

#[test]
fn host_level_to_native_threshold() {
    assert_eq!(Level::Error.to_native(), 16);
    assert_eq!(Level::Warn.to_native(), 24);
    assert_eq!(Level::Info.to_native(), 32);
    assert_eq!(Level::Debug.to_native(), 48);
    assert_eq!(Level::Trace.to_native(), 56);
    assert_eq!(LevelFilter::Trace.to_native(), 56);
    assert_eq!(LevelFilter::Error.to_native(), 16);
}

#[test]
fn threshold_order() {
    assert!(LevelFilter::Warn.allows(Level::Error));
    assert!(LevelFilter::Warn.allows(Level::Warn));
    assert!(!LevelFilter::Warn.allows(Level::Info));
    assert!(!LevelFilter::Off.allows(Level::Error));
    assert!(LevelFilter::Trace.allows(Level::Trace));
    assert_eq!(pass_level(LevelFilter::Debug, AV_LOG_VERBOSE), Some(Level::Debug));
    assert_eq!(pass_level(LevelFilter::Info, AV_LOG_VERBOSE), None);
    assert_eq!(LevelFilter::Off.to_level(), None);
    assert_eq!(LevelFilter::Info.to_level(), Some(Level::Info));
}
