//! What the supervisor of the sidecar process forwards to the process log.
//!
//! The caller spawns the sidecar and hands over each event of the running
//! process; [`forward`] says what to log and whether to stop listening. A
//! sidecar that has ended is not started again.

use crate::request::{Command, Request};
use crate::text::{decimal, integer_text, join};
use vstd::prelude::*;
use vstd::utf8::*;

verus! {

/// Name under which the sidecar is bundled.
pub const SIDECAR_NAME: &'static str = "imalink-core";

/// The text that `String::from_utf8_lossy` reads from bytes: the text that
/// the bytes encode, with a replacement character in place of whatever is
/// no UTF-8.
pub uninterp spec fn lossy_text(bytes: Seq<u8>) -> Seq<char>;

/// Calls `String::from_utf8_lossy`. Bytes that are UTF-8 come back as the
/// text they encode; for others the result still depends on the bytes alone.
#[verifier::external_body]
fn lossy(bytes: &[u8]) -> (text: String)
    ensures
        text@ == lossy_text(bytes@),
        valid_utf8(bytes@) ==> text@ == decode_utf8(bytes@),
{
    String::from_utf8_lossy(bytes).into_owned()
}

/// One event of the running sidecar.
#[derive(Debug)]
pub enum SidecarEvent {
    /// A line on standard output, as the bytes that were written.
    Stdout(Vec<u8>),
    /// A line on standard error, as the bytes that were written.
    Stderr(Vec<u8>),
    /// The process ended, with its exit code if it has one.
    Terminated(Option<i32>),
    /// The process could not be listened to.
    Error(String),
    /// Anything else.
    Other,
}

/// The stream of the process log that a line goes to.
#[derive(Clone, Copy, Debug, PartialEq, Eq, Structural)]
pub enum Stream {
    /// Standard output.
    Output,
    /// Standard error.
    Error,
}

/// One line for the process log.
#[derive(Debug)]
pub struct LogLine {
    pub stream: Stream,
    pub text: String,
}

/// A log line as contracts speak of it.
pub struct LogLineView {
    pub stream: Stream,
    pub text: Seq<char>,
}

impl View for LogLine {
    type V = LogLineView;

    open spec fn view(&self) -> LogLineView {
        LogLineView { stream: self.stream, text: self.text@ }
    }
}

/// What one event leads to.
#[derive(Debug)]
pub struct Forwarded {
    /// Lines to log, in this order.
    pub lines: Vec<LogLine>,
    /// Whether the listener stops.
    pub finished: bool,
}

/// The lines of a list as contracts speak of them.
pub open spec fn log_of(lines: Seq<LogLine>) -> Seq<LogLineView> {
    lines.map_values(|line: LogLine| line@)
}

/// An exit code as the log shows it.
pub open spec fn exit_code_text(code: Option<i32>) -> Seq<char> {
    match code {
        Some(c) => "Some("@ + decimal(c as int) + ")"@,
        None => "None"@,
    }
}

/// A line on the error stream.
pub open spec fn error_line(text: Seq<char>) -> LogLineView {
    LogLineView { stream: Stream::Error, text }
}

/// The line that passes on a line of the sidecar's output: the text under
/// the name of the stream that it was written to, on the same stream of the
/// process log.
pub open spec fn output_line_of(stream: Stream, text: Seq<char>) -> LogLineView {
    match stream {
        Stream::Output => LogLineView { stream, text: "[imalink-core stdout] "@ + text },
        Stream::Error => LogLineView { stream, text: "[imalink-core stderr] "@ + text },
    }
}

/// The lines that an event is logged with. Output is passed on under the
/// name of its stream; the end of the process is noted with its exit code,
/// and with a warning where that code is not zero.
pub open spec fn forwarded_lines(event: SidecarEvent) -> Seq<LogLineView> {
    match event {
        SidecarEvent::Stdout(line) => seq![output_line_of(Stream::Output, lossy_text(line@))],
        SidecarEvent::Stderr(line) => seq![output_line_of(Stream::Error, lossy_text(line@))],
        SidecarEvent::Terminated(code) => {
            let notice = error_line(
                "[imalink-core] Process terminated with code: "@ + exit_code_text(code),
            );
            if code is Some && code->0 != 0 {
                seq![notice, error_line("[imalink-core] Non-zero exit code indicates error!"@)]
            } else {
                seq![notice]
            }
        },
        SidecarEvent::Error(error) => seq![error_line("[imalink-core] Process error: "@ + error@)],
        SidecarEvent::Other => seq![],
    }
}

/// Whether an event ends the listening: only the end of the process does.
pub open spec fn ends_listening(event: SidecarEvent) -> bool {
    event is Terminated
}

/// Writes an exit code as the log shows it.
pub fn exit_code(code: Option<i32>) -> (text: String)
    ensures
        text@ == exit_code_text(code),
{
    match code {
        Some(c) => {
            let mut text = String::from_str("Some(");
            let number = integer_text(c);
            text.append(number.as_str());
            text.append(")");
            text
        },
        None => String::from_str("None"),
    }
}

/// Builds the line that passes on a line of the sidecar's output.
pub fn output_line(stream: Stream, text: &str) -> (line: LogLine)
    ensures
        line@ == output_line_of(stream, text@),
{
    match stream {
        Stream::Output => LogLine { stream, text: join("[imalink-core stdout] ", text) },
        Stream::Error => LogLine { stream, text: join("[imalink-core stderr] ", text) },
    }
}

/// Says what to log for an event and whether to stop listening. Output that
/// is UTF-8 is passed on as the text it encodes.
pub fn forward(event: &SidecarEvent) -> (forwarded: Forwarded)
    ensures
        log_of(forwarded.lines@) == forwarded_lines(*event),
        forwarded.finished == ends_listening(*event),
        event matches SidecarEvent::Stdout(bytes) ==> (valid_utf8(bytes@) ==> log_of(
            forwarded.lines@,
        ) == seq![output_line_of(Stream::Output, decode_utf8(bytes@))]),
        event matches SidecarEvent::Stderr(bytes) ==> (valid_utf8(bytes@) ==> log_of(
            forwarded.lines@,
        ) == seq![output_line_of(Stream::Error, decode_utf8(bytes@))]),
{
    let mut lines: Vec<LogLine> = Vec::new();
    let mut finished = false;
    match event {
        SidecarEvent::Stdout(line) => {
            let text = lossy(line.as_slice());
            lines.push(output_line(Stream::Output, text.as_str()));
        },
        SidecarEvent::Stderr(line) => {
            let text = lossy(line.as_slice());
            lines.push(output_line(Stream::Error, text.as_str()));
        },
        SidecarEvent::Terminated(code) => {
            let shown = exit_code(*code);
            lines.push(
                LogLine {
                    stream: Stream::Error,
                    text: join("[imalink-core] Process terminated with code: ", shown.as_str()),
                },
            );
            match code {
                Some(c) => {
                    if *c != 0 {
                        lines.push(
                            LogLine {
                                stream: Stream::Error,
                                text: String::from_str(
                                    "[imalink-core] Non-zero exit code indicates error!",
                                ),
                            },
                        );
                    }
                },
                None => {},
            }
            finished = true;
        },
        SidecarEvent::Error(error) => {
            lines.push(
                LogLine {
                    stream: Stream::Error,
                    text: join("[imalink-core] Process error: ", error.as_str()),
                },
            );
        },
        SidecarEvent::Other => {},
    }
    assert(log_of(lines@) =~= forwarded_lines(*event));
    Forwarded { lines, finished }
}

/// Prepares the question whether the sidecar is up.
pub fn check_core_health(core_api_url: &str) -> (request: Request)
    ensures
        request@ == Command::CheckHealth.request(core_api_url@, None),
{
    Command::CheckHealth.prepare(core_api_url, None)
}

/// Message for a sidecar whose command could not be set up.
pub fn command_failure(error: &str) -> (message: String)
    ensures
        message@ == "Failed to create sidecar command: "@ + error@,
{
    join("Failed to create sidecar command: ", error)
}

/// Message for a sidecar that could not be started.
pub fn spawn_failure(error: &str) -> (message: String)
    ensures
        message@ == "Failed to spawn imalink-core: "@ + error@,
{
    join("Failed to spawn imalink-core: ", error)
}

} // verus!
