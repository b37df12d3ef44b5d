use dwade::level::Level;
use dwade::logger::Logger;
use dwade::render::render;
use dwade::sink::{ConsoleLog, LogOutput, MemoryLog};
use dwade::stamp::{current_timestamp, Timestamp};

/// Checks that `line` is `[HH:MM:SS.mmm] ` followed by exactly `msg`.
fn assert_rendered_line(line: &str, msg: &str) {
    let bytes = line.as_bytes();
    assert!(bytes.len() == 15 + msg.as_bytes().len());
    assert_eq!(bytes[0], b'[');
    assert_eq!(bytes[3], b':');
    assert_eq!(bytes[6], b':');
    assert_eq!(bytes[9], b'.');
    assert_eq!(bytes[13], b']');
    assert_eq!(bytes[14], b' ');
    for k in [1, 2, 4, 5, 7, 8, 10, 11, 12] {
        assert!(bytes[k].is_ascii_digit());
    }
    assert_eq!(&line[15..], msg);
}

#[test]
fn main_test_logger_new() {
    let logger: Logger<ConsoleLog> = Logger::new();
    assert_eq!(logger.level().rank(), Level::Warning.rank());
    assert_eq!(logger.output_count() == 0, true);
}

#[test]
fn log_test_logger_new() {
    let logger: Logger<ConsoleLog> = Logger::new();
    assert_eq!(logger.level().rank(), Level::Warning.rank());
    assert_eq!(logger.output_count() == 0, true);
}

#[test]
fn ranks_are_ordered_most_severe_first() {
    assert_eq!(Level::Error.rank(), 0);
    assert_eq!(Level::Warning.rank(), 1);
    assert_eq!(Level::Info.rank(), 2);
    assert_eq!(Level::Debug.rank(), 3);
}

#[test]
fn filtering_rule_truth_table() {
    assert!(Level::Error.passes_threshold(&Level::Error));
    assert!(Level::Error.passes_threshold(&Level::Debug));
    assert!(Level::Warning.passes_threshold(&Level::Warning));
    assert!(!Level::Warning.passes_threshold(&Level::Error));
    assert!(Level::Debug.passes_threshold(&Level::Debug));
    assert!(!Level::Debug.passes_threshold(&Level::Warning));
    assert!(!Level::Info.passes_threshold(&Level::Warning));
    assert!(Level::Info.passes_threshold(&Level::Info));
}

#[test]
fn sink_names_are_fixed() {
    assert_eq!(ConsoleLog::new().name(), "Terminal log");
    assert_eq!(MemoryLog::new(1).name(), "Memory log");
}

#[test]
fn render_exact_value() {
    let ts = Timestamp::new(1, 2, 3, 45);
    assert_eq!(render(&ts, "x"), "[01:02:03.045] x");
    let midnight = Timestamp::new(0, 0, 0, 0);
    assert_eq!(render(&midnight, ""), "[00:00:00.000] ");
    let late = Timestamp::new(23, 59, 59, 999);
    assert_eq!(render(&late, "boom"), "[23:59:59.999] boom");
}

#[test]
fn current_timestamp_is_well_formed() {
    let ts = current_timestamp();
    assert!(ts.hour < 24);
    assert!(ts.minute < 60);
    assert!(ts.second < 60);
    assert!(ts.millis < 1000);
}

#[test]
fn scenario_no_sinks_debug_is_a_silent_no_op() {
    let mut logger: Logger<MemoryLog> = Logger::new();
    assert_eq!(logger.level().rank(), Level::Warning.rank());
    logger.log(Level::Debug, "x");
    assert_eq!(logger.output_count(), 0);
}

#[test]
fn below_threshold_message_reaches_no_sink() {
    let mut logger: Logger<MemoryLog> = Logger::new();
    logger.add_output(MemoryLog::new(8));
    logger.log(Level::Debug, "quiet");
    logger.log(Level::Info, "also quiet");
    assert_eq!(logger.output_count(), 1);
    let sink = logger.output_at(0);
    assert_eq!(sink.line_count(), 0);
}

#[test]
fn qualifying_message_writes_once_per_sink() {
    let mut logger: Logger<MemoryLog> = Logger::new();
    logger.add_output(MemoryLog::new(8));
    logger.add_output(MemoryLog::new(8));
    logger.log(Level::Error, "boom");
    for i in 0..2 {
        let sink = logger.output_at(i);
        assert_eq!(sink.line_count(), 1);
        assert_rendered_line(sink.line_at(0), "boom");
    }
}

#[test]
fn scenario_set_level_info_two_sinks() {
    let mut logger: Logger<MemoryLog> = Logger::new();
    logger.set_level(Level::Info);
    logger.add_output(MemoryLog::new(8));
    logger.add_output(MemoryLog::new(8));
    logger.log(Level::Warning, "w");
    logger.log(Level::Debug, "d");
    for i in 0..2 {
        let sink = logger.output_at(i);
        assert_eq!(sink.line_count(), 1);
        assert_rendered_line(sink.line_at(0), "w");
    }
}

#[test]
fn set_level_last_value_wins() {
    let mut logger: Logger<MemoryLog> = Logger::new();
    logger.set_level(Level::Info);
    logger.set_level(Level::Debug);
    logger.set_level(Level::Error);
    assert_eq!(logger.level().rank(), Level::Error.rank());
    logger.add_output(MemoryLog::new(8));
    logger.log(Level::Warning, "w");
    assert_eq!(logger.output_at(0).line_count(), 0);
    logger.log(Level::Error, "e");
    assert_eq!(logger.output_at(0).line_count(), 1);
}

#[test]
fn failing_sink_does_not_stop_delivery() {
    let mut logger: Logger<MemoryLog> = Logger::new();
    logger.add_output(MemoryLog::new(0));
    logger.add_output(MemoryLog::new(8));
    logger.log(Level::Error, "through");
    assert_eq!(logger.output_at(0).line_count(), 0);
    assert_eq!(logger.output_at(1).line_count(), 1);
    assert_rendered_line(logger.output_at(1).line_at(0), "through");
}

#[test]
fn full_sink_fails_only_past_capacity() {
    let mut logger: Logger<MemoryLog> = Logger::new();
    logger.add_output(MemoryLog::new(2));
    logger.log(Level::Error, "one");
    logger.log(Level::Error, "two");
    logger.log(Level::Error, "three");
    let sink = logger.output_at(0);
    assert_eq!(sink.line_count(), 2);
    assert_rendered_line(sink.line_at(0), "one");
    assert_rendered_line(sink.line_at(1), "two");
}

#[test]
fn delivery_appends_in_call_order() {
    let mut logger: Logger<MemoryLog> = Logger::new();
    logger.add_output(MemoryLog::new(8));
    logger.log(Level::Error, "first");
    logger.log(Level::Warning, "second");
    let sink = logger.output_at(0);
    assert_eq!(sink.line_count(), 2);
    assert_rendered_line(sink.line_at(0), "first");
    assert_rendered_line(sink.line_at(1), "second");
}
