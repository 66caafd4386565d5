use pipe_poll::bridge::{PipeWriteListenState, PollOutcome};
use pipe_poll::driver::{
    classify, render_capture_line, render_status_line, Driver, FinalReport, Invocation, Refusal,
    EXIT_CAPTURED, EXIT_USAGE, HELP, MISSING_PIPE,
};

fn args(list: &[&str]) -> Vec<String> {
    list.iter().map(|s| s.to_string()).collect()
}

#[test]
fn exit_codes() {
    assert_eq!(EXIT_CAPTURED, 0);
    assert_eq!(EXIT_USAGE, 1);
}

#[test]
fn help_block_text() {
    let expected = "\nUSAGE:\n\tpipe-poll <pipe>\n\nARGUMENTS:\n\tpipe - location of named pipe\n\nEXAMPLES:\n\tmkfifo pipe\n\tpipe-poll pipe\n";
    assert_eq!(HELP, expected);
}

#[test]
fn missing_argument_is_a_usage_error() {
    let invocation = classify(&args(&["pipe-poll"]));
    assert_eq!(invocation, Invocation::NoArgument);
    let refusal = invocation.refusal().unwrap();
    assert_eq!(refusal.exit_code, 1);
    assert!(refusal.message.contains("Please pass the location of a shared pipe"));
    assert!(refusal.message.ends_with(HELP));
    assert_eq!(refusal.message, format!("{}{}", MISSING_PIPE, HELP));
    assert_eq!(
        refusal.message,
        format!("Please pass the location of a shared pipe as argv[1]!{}", HELP)
    );
}

#[test]
fn empty_command_line_is_a_usage_error() {
    assert_eq!(classify(&args(&[])), Invocation::NoArgument);
}

#[test]
fn short_help_flag_prints_help_and_exits_with_one() {
    let invocation = classify(&args(&["pipe-poll", "-h"]));
    assert_eq!(invocation, Invocation::HelpRequested);
    assert_eq!(
        invocation.refusal(),
        Some(Refusal { message: HELP.to_string(), exit_code: 1 })
    );
}

#[test]
fn long_help_flag_prints_help_and_exits_with_one() {
    let invocation = classify(&args(&["pipe-poll", "--help"]));
    assert_eq!(invocation, Invocation::HelpRequested);
    assert_eq!(
        invocation.refusal(),
        Some(Refusal { message: HELP.to_string(), exit_code: 1 })
    );
}

#[test]
fn help_wins_over_later_arguments() {
    assert_eq!(classify(&args(&["pipe-poll", "-h", "pipe"])), Invocation::HelpRequested);
}

#[test]
fn path_is_taken_as_it_stands() {
    let invocation = classify(&args(&["pipe-poll", "/tmp/pipe"]));
    assert_eq!(invocation, Invocation::ValidPath("/tmp/pipe".to_string()));
    assert_eq!(invocation.refusal(), None);
}

#[test]
fn only_the_first_argument_counts() {
    assert_eq!(
        classify(&args(&["pipe-poll", "pipe", "--help"])),
        Invocation::ValidPath("pipe".to_string())
    );
}

#[test]
fn near_misses_of_the_help_flags_are_paths() {
    for candidate in ["-H", "--Help", "-help", "--h", "-h ", "", "-", "--"] {
        assert_eq!(
            classify(&args(&["pipe-poll", candidate])),
            Invocation::ValidPath(candidate.to_string())
        );
    }
}

#[test]
fn status_line_text() {
    assert_eq!(
        render_status_line(0),
        "Waiting for the future to complete... it's been 0 seconds"
    );
    assert_eq!(
        render_status_line(61),
        "Waiting for the future to complete... it's been 61 seconds"
    );
}

#[test]
fn capture_line_text() {
    assert_eq!(render_capture_line("hello world"), "Thread finished its job with: hello world!");
    assert_eq!(render_capture_line(""), "Thread finished its job with: !");
}

#[test]
fn status_lines_count_up_from_zero() {
    let mut driver = Driver::new();
    let mut second: i32 = 0;
    while second < 4 {
        assert!(driver.can_tick());
        assert_eq!(
            driver.tick(),
            Some(format!("Waiting for the future to complete... it's been {} seconds", second))
        );
        second += 1;
    }
}

#[test]
fn no_status_line_after_the_capture_line() {
    let mut driver = Driver::new();
    assert!(driver.tick().is_some());
    assert!(driver.tick().is_some());
    let report = driver.finish("hello world").unwrap();
    assert_eq!(report.line, "Thread finished its job with: hello world!");
    assert_eq!(report.exit_code, 0);
    assert!(driver.can_tick());
    assert_eq!(driver.tick(), None);
    assert_eq!(driver.tick(), None);
}

#[test]
fn driver_counts_the_seconds() {
    let mut driver = Driver::new();
    assert_eq!(driver.elapsed(), 0);
    assert!(!driver.is_finished());
    driver.tick();
    driver.tick();
    assert_eq!(driver.elapsed(), 2);
    driver.finish("x");
    assert!(driver.is_finished());
    driver.tick();
    assert_eq!(driver.elapsed(), 2);
}

#[test]
fn capture_is_reported_once() {
    let mut driver = Driver::new();
    assert_eq!(
        driver.finish("a"),
        Some(FinalReport { line: "Thread finished its job with: a!".to_string(), exit_code: 0 })
    );
    assert_eq!(driver.finish("a"), None);
    assert_eq!(driver.finish("b"), None);
}

#[test]
fn capture_before_the_first_second() {
    let mut driver = Driver::new();
    assert!(driver.finish("early").is_some());
    assert_eq!(driver.tick(), None);
}

#[test]
fn written_text_reaches_standard_output_trimmed() {
    let mut driver = Driver::new();
    let mut state: PipeWriteListenState<u8> = PipeWriteListenState::new();
    let mut printed: Vec<String> = Vec::new();

    printed.push(driver.tick().unwrap());
    assert_eq!(state.poll(1), PollOutcome::Pending);
    printed.push(driver.tick().unwrap());

    assert_eq!(state.complete("  hello world  "), Some(1));
    let written = match state.poll(2) {
        PollOutcome::Ready(text) => text,
        PollOutcome::Pending => panic!("the capture was complete"),
    };
    let report = driver.finish(&written).unwrap();
    printed.push(report.line);

    assert_eq!(report.exit_code, 0);
    assert_eq!(driver.tick(), None);
    assert_eq!(
        printed,
        vec![
            "Waiting for the future to complete... it's been 0 seconds".to_string(),
            "Waiting for the future to complete... it's been 1 seconds".to_string(),
            "Thread finished its job with: hello world!".to_string(),
        ]
    );
    assert!(printed.last().unwrap().contains("hello world"));
    assert!(!printed.last().unwrap().contains(" hello world "));
}
