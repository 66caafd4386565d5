//! The command line, and what the program prints while it waits and when the
//! text has arrived.

use crate::text::{decimal, render_decimal};
use vstd::prelude::*;
use vstd::string::*;

verus! {

/// The exit code after the captured text was printed.
pub const EXIT_CAPTURED: i32 = 0;

/// The exit code after a usage error or a request for help.
pub const EXIT_USAGE: i32 = 1;

/// The help block.
pub const HELP: &'static str =
    "\nUSAGE:\n\tpipe-poll <pipe>\n\nARGUMENTS:\n\tpipe - location of named pipe\n\nEXAMPLES:\n\tmkfifo pipe\n\tpipe-poll pipe\n";

/// What stands before the help block when the pipe's location is missing.
pub const MISSING_PIPE: &'static str = "Please pass the location of a shared pipe as argv[1]!";

/// Whether `arg` asks for help.
pub open spec fn is_help_flag(arg: Seq<char>) -> bool {
    arg == "-h"@ || arg == "--help"@
}

/// What a command line asks for, as a mathematical value.
pub enum InvocationView {
    NoArgument,
    HelpRequested,
    ValidPath(Seq<char>),
}

/// What a command line asks for.
#[derive(Debug, PartialEq, Eq)]
pub enum Invocation {
    /// No pipe was named.
    NoArgument,
    /// Help was asked for.
    HelpRequested,
    /// The pipe at this location is to be awaited.
    ValidPath(String),
}

impl View for Invocation {
    type V = InvocationView;

    open spec fn view(&self) -> InvocationView {
        match self {
            Invocation::NoArgument => InvocationView::NoArgument,
            Invocation::HelpRequested => InvocationView::HelpRequested,
            Invocation::ValidPath(path) => InvocationView::ValidPath(path@),
        }
    }
}

/// What the arguments `args` ask for; `args[0]` is the program's own name and
/// `args[1]` the first argument proper.
pub open spec fn classify_spec(args: Seq<Seq<char>>) -> InvocationView {
    if args.len() < 2 {
        InvocationView::NoArgument
    } else if is_help_flag(args[1]) {
        InvocationView::HelpRequested
    } else {
        InvocationView::ValidPath(args[1])
    }
}

/// Reads the command line. Only the first argument counts: `-h` and `--help`
/// ask for help, anything else is taken as the pipe's location.
pub fn classify(args: &Vec<String>) -> (invocation: Invocation)
    ensures
        invocation@ == classify_spec(args.deep_view()),
{
    if args.len() < 2 {
        return Invocation::NoArgument;
    }
    let first = &args[1];
    assert(args.deep_view()[1] == first@);
    let short = String::from_str("-h");
    let long = String::from_str("--help");
    if *first == short || *first == long {
        Invocation::HelpRequested
    } else {
        Invocation::ValidPath(first.clone())
    }
}

/// What a refused command line is answered with.
#[derive(Debug, PartialEq, Eq)]
pub struct Refusal {
    /// The text for the error stream.
    pub message: String,
    /// The code the process exits with.
    pub exit_code: i32,
}

/// The text for the error stream when `invocation` is refused, or `None` when
/// it names a pipe.
pub open spec fn refusal_message(invocation: InvocationView) -> Option<Seq<char>> {
    match invocation {
        InvocationView::NoArgument => Some(MISSING_PIPE@ + HELP@),
        InvocationView::HelpRequested => Some(HELP@),
        InvocationView::ValidPath(_) => None,
    }
}

impl Invocation {
    /// The answer to a command line that names no pipe: the message for the
    /// error stream and the exit code. A command line that names a pipe is not
    /// refused.
    pub fn refusal(&self) -> (refusal: Option<Refusal>)
        ensures
            match refusal {
                Some(r) => refusal_message(self@) == Some(r.message@) && r.exit_code == EXIT_USAGE,
                None => refusal_message(self@) is None,
            },
    {
        match self {
            Invocation::NoArgument => {
                let mut message = String::from_str(MISSING_PIPE);
                message.append(HELP);
                Some(Refusal { message, exit_code: EXIT_USAGE })
            },
            Invocation::HelpRequested => Some(
                Refusal { message: String::from_str(HELP), exit_code: EXIT_USAGE },
            ),
            Invocation::ValidPath(_) => None,
        }
    }
}

/// The status line after `seconds` seconds of waiting.
pub open spec fn status_line(seconds: int) -> Seq<char> {
    "Waiting for the future to complete... it's been "@ + decimal(seconds) + " seconds"@
}

/// The line that reports the captured text `written`.
pub open spec fn capture_line(written: Seq<char>) -> Seq<char> {
    "Thread finished its job with: "@ + written + "!"@
}

/// Writes the status line after `seconds` seconds of waiting.
pub fn render_status_line(seconds: i32) -> (line: String)
    ensures
        line@ == status_line(seconds as int),
{
    let mut line = String::from_str("Waiting for the future to complete... it's been ");
    let count = render_decimal(seconds);
    line.append(count.as_str());
    line.append(" seconds");
    line
}

/// Writes the line that reports the captured text `written`.
pub fn render_capture_line(written: &str) -> (line: String)
    ensures
        line@ == capture_line(written@),
{
    let mut line = String::from_str("Thread finished its job with: ");
    line.append(written);
    line.append("!");
    line
}

/// Something that happens to the driver.
pub enum DriverEvent {
    /// Another second of waiting begins.
    Tick,
    /// The awaited text has arrived.
    Captured(Seq<char>),
}

/// The driver as a mathematical value.
pub struct DriverView {
    /// The seconds waited so far.
    pub elapsed: int,
    /// Whether the captured text was reported.
    pub finished: bool,
}

impl DriverView {
    /// The driver before anything was printed.
    pub open spec fn initial() -> Self {
        DriverView { elapsed: 0, finished: false }
    }

    /// The line printed for `event`, if one is.
    pub open spec fn line(self, event: DriverEvent) -> Option<Seq<char>> {
        if self.finished {
            None
        } else {
            match event {
                DriverEvent::Tick => Some(status_line(self.elapsed)),
                DriverEvent::Captured(written) => Some(capture_line(written)),
            }
        }
    }

    /// The driver after `event`.
    pub open spec fn after(self, event: DriverEvent) -> Self {
        if self.finished {
            self
        } else {
            match event {
                DriverEvent::Tick => DriverView { elapsed: self.elapsed + 1, finished: false },
                DriverEvent::Captured(_) => DriverView { elapsed: self.elapsed, finished: true },
            }
        }
    }

    /// The driver after `events`, in order.
    pub open spec fn after_all(self, events: Seq<DriverEvent>) -> Self
        decreases events.len(),
    {
        if events.len() == 0 {
            self
        } else {
            self.after(events.first()).after_all(events.drop_first())
        }
    }

    /// The lines printed for `events`, in order.
    pub open spec fn output(self, events: Seq<DriverEvent>) -> Seq<Seq<char>>
        decreases events.len(),
    {
        if events.len() == 0 {
            Seq::empty()
        } else {
            let rest = self.after(events.first()).output(events.drop_first());
            match self.line(events.first()) {
                Some(line) => seq![line] + rest,
                None => rest,
            }
        }
    }
}

/// The report of the captured text, after which the process exits.
#[derive(Debug, PartialEq, Eq)]
pub struct FinalReport {
    /// The last line for standard output.
    pub line: String,
    /// The code the process exits with.
    pub exit_code: i32,
}

/// What the program prints: a status line for every second of waiting, then
/// the captured text, then nothing.
pub struct Driver {
    seconds: i32,
    finished: bool,
}

impl View for Driver {
    type V = DriverView;

    closed spec fn view(&self) -> DriverView {
        DriverView { elapsed: self.seconds as int, finished: self.finished }
    }
}

impl Driver {
    /// A driver that has waited for no time yet.
    pub fn new() -> (driver: Self)
        ensures
            driver@ == DriverView::initial(),
    {
        Driver { seconds: 0, finished: false }
    }

    /// The seconds waited so far.
    pub fn elapsed(&self) -> (seconds: i32)
        ensures
            seconds == self@.elapsed,
    {
        self.seconds
    }

    /// Whether the captured text was reported.
    pub fn is_finished(&self) -> (b: bool)
        ensures
            b == self@.finished,
    {
        self.finished
    }

    /// Whether `tick` may be called: the count of seconds must have room for
    /// one more, unless nothing is counted any longer.
    pub fn can_tick(&self) -> (b: bool)
        ensures
            b == (self@.finished || self@.elapsed < i32::MAX),
    {
        self.finished || self.seconds < i32::MAX
    }

    /// Begins another second of waiting: hands out the status line to print
    /// before sleeping, and counts the second. Once the captured text was
    /// reported there is no line and nothing is counted.
    pub fn tick(&mut self) -> (line: Option<String>)
        requires
            old(self)@.finished || old(self)@.elapsed < i32::MAX,
        ensures
            final(self)@ == old(self)@.after(DriverEvent::Tick),
            match line {
                Some(l) => old(self)@.line(DriverEvent::Tick) == Some(l@),
                None => old(self)@.line(DriverEvent::Tick) is None,
            },
    {
        if self.finished {
            None
        } else {
            let line = render_status_line(self.seconds);
            self.seconds = self.seconds + 1;
            Some(line)
        }
    }

    /// Reports the captured text `written`: hands out the final line and the
    /// exit code. Only the first call reports; a later one hands out nothing.
    pub fn finish(&mut self, written: &str) -> (report: Option<FinalReport>)
        ensures
            final(self)@ == old(self)@.after(DriverEvent::Captured(written@)),
            final(self)@.finished,
            match report {
                Some(r) => old(self)@.line(DriverEvent::Captured(written@)) == Some(r.line@)
                    && r.exit_code == EXIT_CAPTURED,
                None => old(self)@.line(DriverEvent::Captured(written@)) is None,
            },
    {
        if self.finished {
            None
        } else {
            self.finished = true;
            Some(FinalReport { line: render_capture_line(written), exit_code: EXIT_CAPTURED })
        }
    }
}

/// `n` seconds of waiting and nothing else.
pub open spec fn ticks(n: nat) -> Seq<DriverEvent> {
    Seq::new(n, |k: int| DriverEvent::Tick)
}

/// The status lines for `n` seconds of waiting that begin after `elapsed`
/// seconds.
pub open spec fn status_lines(elapsed: int, n: nat) -> Seq<Seq<char>> {
    Seq::new(n, |k: int| status_line(elapsed + k))
}

/// What is printed for one run of events and then another is what is printed
/// for the first, followed by what the driver prints for the second from
/// where the first has left it.
pub proof fn lemma_output_in_two_parts(
    driver: DriverView,
    first: Seq<DriverEvent>,
    second: Seq<DriverEvent>,
)
    ensures
        driver.output(first + second) == driver.output(first) + driver.after_all(first).output(
            second,
        ),
        driver.after_all(first + second) == driver.after_all(first).after_all(second),
    decreases first.len(),
{
    if first.len() == 0 {
        assert(first + second =~= second);
        assert(driver.output(first) + driver.output(second) =~= driver.output(second));
    } else {
        let all = first + second;
        assert(all.first() == first.first());
        assert(all.drop_first() =~= first.drop_first() + second);
        let next = driver.after(first.first());
        lemma_output_in_two_parts(next, first.drop_first(), second);
        let tail = next.output(first.drop_first());
        let rest = next.after_all(first.drop_first()).output(second);
        match driver.line(first.first()) {
            Some(line) => {
                assert(seq![line] + (tail + rest) =~= (seq![line] + tail) + rest);
            },
            None => {},
        }
    }
}

/// Once the captured text was reported nothing is printed any more, whatever
/// happens, and the driver stays as it is.
pub proof fn lemma_silent_once_finished(driver: DriverView, events: Seq<DriverEvent>)
    requires
        driver.finished,
    ensures
        driver.output(events) == Seq::<Seq<char>>::empty(),
        driver.after_all(events) == driver,
    decreases events.len(),
{
    if events.len() > 0 {
        lemma_silent_once_finished(driver, events.drop_first());
    }
}

/// While the text is awaited there is one status line for every second, and
/// the count on it goes up by one from line to line.
pub proof fn lemma_status_lines_count_up(driver: DriverView, n: nat)
    requires
        !driver.finished,
    ensures
        driver.output(ticks(n)) == status_lines(driver.elapsed, n),
        driver.after_all(ticks(n)) == (DriverView { elapsed: driver.elapsed + n, finished: false }),
    decreases n,
{
    if n == 0 {
        assert(driver.output(ticks(n)) =~= status_lines(driver.elapsed, n));
    } else {
        let next = driver.after(DriverEvent::Tick);
        assert(ticks(n).first() == DriverEvent::Tick);
        assert(ticks(n).drop_first() =~= ticks((n - 1) as nat));
        lemma_status_lines_count_up(next, (n - 1) as nat);
        assert(seq![status_line(driver.elapsed)] + status_lines(next.elapsed, (n - 1) as nat)
            =~= status_lines(driver.elapsed, n));
    }
}

/// The whole of standard output: when the text `written` arrives after `n`
/// seconds of waiting, the status lines for the seconds 0 to `n - 1` are
/// printed, then the line that reports `written`, and then nothing, whatever
/// `later` may still happen.
pub proof fn lemma_capture_line_is_last(n: nat, written: Seq<char>, later: Seq<DriverEvent>)
    ensures
        DriverView::initial().output(ticks(n) + seq![DriverEvent::Captured(written)] + later)
            == status_lines(0, n).push(capture_line(written)),
{
    let start = DriverView::initial();
    let capture = seq![DriverEvent::Captured(written)];
    let waited = start.after_all(ticks(n));
    lemma_status_lines_count_up(start, n);
    lemma_output_in_two_parts(start, ticks(n) + capture, later);
    lemma_output_in_two_parts(start, ticks(n), capture);
    assert(waited.output(capture) =~= seq![capture_line(written)] && waited.after_all(
        capture,
    ).finished) by {
        reveal_with_fuel(DriverView::output, 2);
        reveal_with_fuel(DriverView::after_all, 2);
        assert(capture.first() == DriverEvent::Captured(written));
        assert(capture.drop_first().len() == 0);
    }
    lemma_silent_once_finished(waited.after_all(capture), later);
    assert(status_lines(0, n) + seq![capture_line(written)] + Seq::<Seq<char>>::empty()
        =~= status_lines(0, n).push(capture_line(written)));
}

} // verus!
