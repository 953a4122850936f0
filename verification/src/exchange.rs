//! How the answer to a request is judged, and what the caller is told when
//! the exchange fails.
//!
//! The caller sends the request and reports back what happened, step by
//! step: first whether a response arrived and with which status, then the
//! body as far as the verdict on the status asks for it.

use crate::request::Command;
use crate::status::{is_success_code, status_line, HttpStatus, CONFLICT};
use vstd::prelude::*;
use vstd::utf8::*;

verus! {

/// How a body text is decoded once it has been read.
#[derive(Clone, Copy, Debug, PartialEq, Eq, Structural)]
pub enum Decoder {
    /// The sidecar's record of one processed image.
    PhotoSchema,
    /// The backend's list of input channels.
    ChannelList,
    /// One input channel.
    Channel,
    /// The backend's record of an uploaded photo. `duplicate` is set when the
    /// backend answered that the photo was there already; the decoded record
    /// is then marked as a duplicate whatever the body says.
    Photo { duplicate: bool },
}

/// What a body is decoded into where body and JSON are read in one step.
#[derive(Clone, Copy, Debug, PartialEq, Eq, Structural)]
pub enum JsonReply {
    /// Token and user of a successful login.
    Login,
    /// The user that was registered.
    Registration,
    /// The user that the token belongs to.
    User,
}

/// What to do once the status of the response is known.
#[derive(Clone, Copy, Debug, PartialEq, Eq, Structural)]
pub enum Verdict {
    /// The exchange failed. With `read_text` the caller first reads the body
    /// as text, taking an unreadable body as empty; the message then comes
    /// from [`rejection`].
    Reject { read_text: bool },
    /// Read the body as text, then decode it.
    Decode(Decoder),
    /// Read the body and decode it as JSON in one step.
    DecodeJson(JsonReply),
    /// Read the body as text and report it with [`health_report`].
    Report,
    /// The exchange succeeded; the body is not read.
    Accept,
}

/// Longest response start, in bytes, that a decoding failure quotes.
pub const START_LIMIT: usize = 500;

impl Command {
    /// Whether the message about a refused request quotes the body.
    pub open spec fn quotes_failure_text(self) -> bool {
        match self {
            Command::ListChannels
            | Command::CreateChannel
            | Command::UploadPhoto
            | Command::Login
            | Command::Register
            | Command::Logout => true,
            _ => false,
        }
    }

    /// What a successful response to the command is followed by.
    pub open spec fn on_success(self) -> Verdict {
        match self {
            Command::ProcessImage => Verdict::Decode(Decoder::PhotoSchema),
            Command::ListChannels => Verdict::Decode(Decoder::ChannelList),
            Command::CreateChannel => Verdict::Decode(Decoder::Channel),
            Command::UploadPhoto => Verdict::Decode(Decoder::Photo { duplicate: false }),
            Command::Login => Verdict::DecodeJson(JsonReply::Login),
            Command::Register => Verdict::DecodeJson(JsonReply::Registration),
            Command::ValidateToken => Verdict::DecodeJson(JsonReply::User),
            Command::Logout => Verdict::Accept,
            Command::CheckHealth => Verdict::Report,
        }
    }

    /// The verdict on a status code. An upload that meets a conflict is a
    /// success that found the photo in place; every other code outside
    /// `200..=299` is a failure.
    pub open spec fn verdict(self, code: u16) -> Verdict {
        if self == Command::UploadPhoto && code == CONFLICT {
            Verdict::Decode(Decoder::Photo { duplicate: true })
        } else if is_success_code(code) {
            self.on_success()
        } else {
            Verdict::Reject { read_text: self.quotes_failure_text() }
        }
    }

    /// Message for a request that got no response. `base` is the base URL
    /// that the request went to, `error` what the transport reported.
    pub open spec fn send_failure_text(self, base: Seq<char>, error: Seq<char>) -> Seq<char> {
        match self {
            Command::ProcessImage => "Failed to send request to core API: "@ + error,
            Command::ListChannels | Command::CreateChannel | Command::UploadPhoto =>
                "Failed to send request to backend: "@ + error,
            Command::Login | Command::Register | Command::Logout | Command::ValidateToken =>
                "Failed to connect to server: "@ + error,
            Command::CheckHealth => "Cannot connect to imalink-core at "@ + base + ": "@ + error,
        }
    }

    /// Message for a refused request. `status` is the status as text, `body`
    /// the body text, which only the commands that quote it look at.
    pub open spec fn rejection_text(self, status: Seq<char>, body: Seq<char>) -> Seq<char> {
        match self {
            Command::ProcessImage => "Core API returned error: "@ + status,
            Command::ListChannels | Command::CreateChannel | Command::UploadPhoto =>
                "Backend returned error "@ + status + ": "@ + body,
            Command::Login => "Login failed ("@ + status + "): "@ + or_default(
                body,
                "Invalid credentials"@,
            ),
            Command::Register => "Registration failed ("@ + status + "): "@ + or_default(
                body,
                "Registration error"@,
            ),
            Command::Logout => "Logout failed ("@ + status + "): "@ + body,
            Command::ValidateToken => "Token validation failed: "@ + status,
            Command::CheckHealth => "Health check failed with status: "@ + status,
        }
    }

    /// Judges the status of the response.
    pub fn judge(self, status: HttpStatus) -> (verdict: Verdict)
        ensures
            verdict == self.verdict(status@),
            verdict is Reject <==> !(is_success_code(status@) || (self == Command::UploadPhoto
                && status@ == CONFLICT)),
    {
        let upload = match self {
            Command::UploadPhoto => true,
            _ => false,
        };
        if upload && status.is_conflict() {
            Verdict::Decode(Decoder::Photo { duplicate: true })
        } else if status.is_success() {
            match self {
                Command::ProcessImage => Verdict::Decode(Decoder::PhotoSchema),
                Command::ListChannels => Verdict::Decode(Decoder::ChannelList),
                Command::CreateChannel => Verdict::Decode(Decoder::Channel),
                Command::UploadPhoto => Verdict::Decode(Decoder::Photo { duplicate: false }),
                Command::Login => Verdict::DecodeJson(JsonReply::Login),
                Command::Register => Verdict::DecodeJson(JsonReply::Registration),
                Command::ValidateToken => Verdict::DecodeJson(JsonReply::User),
                Command::Logout => Verdict::Accept,
                Command::CheckHealth => Verdict::Report,
            }
        } else {
            let read_text = match self {
                Command::ListChannels
                | Command::CreateChannel
                | Command::UploadPhoto
                | Command::Login
                | Command::Register
                | Command::Logout => true,
                _ => false,
            };
            Verdict::Reject { read_text }
        }
    }

    /// Message for a request that got no response.
    pub fn send_failure(self, base_url: &str, error: &str) -> (message: String)
        ensures
            message@ == self.send_failure_text(base_url@, error@),
    {
        match self {
            Command::ProcessImage => {
                let mut message = String::from_str("Failed to send request to core API: ");
                message.append(error);
                message
            },
            Command::ListChannels | Command::CreateChannel | Command::UploadPhoto => {
                let mut message = String::from_str("Failed to send request to backend: ");
                message.append(error);
                message
            },
            Command::Login | Command::Register | Command::Logout | Command::ValidateToken => {
                let mut message = String::from_str("Failed to connect to server: ");
                message.append(error);
                message
            },
            Command::CheckHealth => {
                let mut message = String::from_str("Cannot connect to imalink-core at ");
                message.append(base_url);
                message.append(": ");
                message.append(error);
                message
            },
        }
    }

    /// Message for a refused request, from the status as text and the body.
    pub fn rejection_message(self, status: &str, body: &str) -> (message: String)
        ensures
            message@ == self.rejection_text(status@, body@),
    {
        match self {
            Command::ProcessImage => {
                let mut message = String::from_str("Core API returned error: ");
                message.append(status);
                message
            },
            Command::ListChannels | Command::CreateChannel | Command::UploadPhoto => {
                let mut message = String::from_str("Backend returned error ");
                message.append(status);
                message.append(": ");
                message.append(body);
                message
            },
            Command::Login => {
                let mut message = String::from_str("Login failed (");
                message.append(status);
                message.append("): ");
                message.append(
                    if body.is_empty() {
                        "Invalid credentials"
                    } else {
                        body
                    },
                );
                message
            },
            Command::Register => {
                let mut message = String::from_str("Registration failed (");
                message.append(status);
                message.append("): ");
                message.append(
                    if body.is_empty() {
                        "Registration error"
                    } else {
                        body
                    },
                );
                message
            },
            Command::Logout => {
                let mut message = String::from_str("Logout failed (");
                message.append(status);
                message.append("): ");
                message.append(body);
                message
            },
            Command::ValidateToken => {
                let mut message = String::from_str("Token validation failed: ");
                message.append(status);
                message
            },
            Command::CheckHealth => {
                let mut message = String::from_str("Health check failed with status: ");
                message.append(status);
                message
            },
        }
    }

    /// Message for a refused request. The status appears as code and reason
    /// phrase; `body` is the body text where the verdict asked for it, and is
    /// not looked at otherwise.
    pub fn rejection(self, status: HttpStatus, body: &str) -> (message: String)
        ensures
            message@ == self.rejection_text(status_line(status@), body@),
    {
        let status_text = status.describe();
        self.rejection_message(status_text.as_str(), body)
    }
}

/// A response is refused exactly when its code lies outside `200..=299`,
/// but for an upload that meets a conflict.
pub proof fn lemma_refused_unless_welcome(command: Command, code: u16)
    ensures
        command.verdict(code) is Reject <==> !(is_success_code(code) || (command
            == Command::UploadPhoto && code == CONFLICT)),
{
}

/// A photo is taken for a duplicate on the strength of the status only
/// where an upload met a conflict.
pub proof fn lemma_duplicate_only_on_conflict(command: Command, code: u16)
    ensures
        command.verdict(code) == Verdict::Decode(Decoder::Photo { duplicate: true }) <==> (command
            == Command::UploadPhoto && code == CONFLICT),
{
}

/// Where the verdict does not ask for the body of a refused response, the
/// message does not depend on it.
pub proof fn lemma_unread_body_is_not_quoted(
    command: Command,
    code: u16,
    status: Seq<char>,
    body: Seq<char>,
    other: Seq<char>,
)
    requires
        command.verdict(code) == (Verdict::Reject { read_text: false }),
    ensures
        command.rejection_text(status, body) == command.rejection_text(status, other),
{
}

/// `text`, or `fallback` where `text` is empty.
pub open spec fn or_default(text: Seq<char>, fallback: Seq<char>) -> Seq<char> {
    if text.len() == 0 {
        fallback
    } else {
        text
    }
}

/// Message for a body that could not be read as text.
pub open spec fn read_failure_text(error: Seq<char>) -> Seq<char> {
    "Failed to read response: "@ + error
}

/// Message for a body that could not be read as text.
pub fn read_failure(error: &str) -> (message: String)
    ensures
        message@ == read_failure_text(error@),
{
    let mut message = String::from_str("Failed to read response: ");
    message.append(error);
    message
}

/// What the health check reports for the body of a successful response.
pub open spec fn health_report_text(body: Seq<char>) -> Seq<char> {
    "✓ imalink-core is running ("@ + body + ")"@
}

/// What the health check reports for the body of a successful response.
pub fn health_report(body: &str) -> (report: String)
    ensures
        report@ == health_report_text(body@),
{
    let mut report = String::from_str("✓ imalink-core is running (");
    report.append(body);
    report.append(")");
    report
}

/// Whether the first [`START_LIMIT`] bytes of a text end between two
/// characters, so that they are a text themselves. A text of at most that
/// many bytes is taken whole.
pub open spec fn cuts_cleanly(body: Seq<char>) -> bool {
    encode_utf8(body).len() <= START_LIMIT || is_char_boundary(
        encode_utf8(body),
        START_LIMIT as int,
    )
}

/// The start of a response that a decoding failure quotes: the text whose
/// UTF-8 encoding is the first [`START_LIMIT`] bytes of the body's, or the
/// whole body where it is no longer than that.
pub open spec fn start_of(body: Seq<char>) -> Seq<char> {
    if encode_utf8(body).len() > START_LIMIT {
        decode_utf8(encode_utf8(body).subrange(0, START_LIMIT as int))
    } else {
        body
    }
}

/// Tests whether [`response_start`] can cut the text.
pub fn can_cut(body: &str) -> (clean: bool)
    ensures
        clean == cuts_cleanly(body@),
{
    byte_len(body) <= START_LIMIT || body.is_char_boundary(START_LIMIT)
}

/// Length of a text's UTF-8 encoding.
fn byte_len(text: &str) -> (len: usize)
    ensures
        len == encode_utf8(text@).len(),
{
    broadcast use vstd::slice::group_slice_axioms;

    text.as_bytes().len()
}

/// Cuts a response down to the start that a decoding failure quotes.
pub fn response_start(body: &str) -> (start: &str)
    requires
        cuts_cleanly(body@),
    ensures
        start@ == start_of(body@),
{
    if byte_len(body) > START_LIMIT {
        let (head, _) = body.split_at(START_LIMIT);
        proof {
            encode_utf8_decode_utf8(head@);
        }
        head
    } else {
        body
    }
}

/// The quoted start is the body's own beginning, character for character.
pub proof fn lemma_start_is_prefix(body: Seq<char>)
    requires
        cuts_cleanly(body),
    ensures
        start_of(body).is_prefix_of(body),
        encode_utf8(start_of(body)).len() <= START_LIMIT,
{
    let bytes = encode_utf8(body);
    encode_utf8_valid_utf8(body);
    encode_utf8_decode_utf8(body);
    if bytes.len() > START_LIMIT {
        let cut = START_LIMIT as int;
        decode_utf8_split(bytes, cut);
        valid_utf8_split(bytes, cut);
        decode_utf8_encode_utf8(bytes.subrange(0, cut));
        let head = decode_utf8(bytes.subrange(0, cut));
        let tail = decode_utf8(bytes.subrange(cut, bytes.len() as int));
        assert(body =~= head + tail);
        assert(head =~= body.subrange(0, head.len() as int));
    }
}

impl Decoder {
    /// Message for a body text that could not be decoded. `error` is what the
    /// decoder reported.
    pub open spec fn failure_text(self, error: Seq<char>, body: Seq<char>) -> Seq<char> {
        match self {
            Decoder::PhotoSchema => "Failed to parse PhotoCreateSchema response: "@ + error
                + " | Response start: "@ + start_of(body),
            Decoder::Photo { duplicate: true } => "Failed to parse duplicate response: "@ + error
                + " | Response was: "@ + body,
            _ => "Failed to parse response: "@ + error + " | Response was: "@ + body,
        }
    }

    /// Whether the decoded record is to be marked as a duplicate.
    pub open spec fn marks_duplicate(self) -> bool {
        self == (Decoder::Photo { duplicate: true })
    }

    /// Message for a body text that could not be decoded.
    pub fn failure(self, error: &str, body: &str) -> (message: String)
        requires
            self == Decoder::PhotoSchema ==> cuts_cleanly(body@),
        ensures
            message@ == self.failure_text(error@, body@),
    {
        match self {
            Decoder::PhotoSchema => {
                let mut message = String::from_str("Failed to parse PhotoCreateSchema response: ");
                message.append(error);
                message.append(" | Response start: ");
                message.append(response_start(body));
                message
            },
            Decoder::Photo { duplicate: true } => {
                let mut message = String::from_str("Failed to parse duplicate response: ");
                message.append(error);
                message.append(" | Response was: ");
                message.append(body);
                message
            },
            _ => {
                let mut message = String::from_str("Failed to parse response: ");
                message.append(error);
                message.append(" | Response was: ");
                message.append(body);
                message
            },
        }
    }

    /// Message for a body text that could not be decoded, or none where the
    /// message would quote a start of the body that cannot be cut.
    pub fn try_failure(self, error: &str, body: &str) -> (message: Option<String>)
        ensures
            message is Some <==> (self == Decoder::PhotoSchema ==> cuts_cleanly(body@)),
            message matches Some(m) ==> m@ == self.failure_text(error@, body@),
    {
        let quotes_start = match self {
            Decoder::PhotoSchema => true,
            _ => false,
        };
        if quotes_start && !can_cut(body) {
            None
        } else {
            Some(self.failure(error, body))
        }
    }

    /// Whether the decoded record is to be marked as a duplicate.
    pub fn forces_duplicate(self) -> (yes: bool)
        ensures
            yes == self.marks_duplicate(),
    {
        match self {
            Decoder::Photo { duplicate: true } => true,
            _ => false,
        }
    }
}

impl JsonReply {
    /// Message for a body that could not be read or decoded.
    pub open spec fn failure_text(self, error: Seq<char>) -> Seq<char> {
        match self {
            JsonReply::Login => "Failed to parse login response: "@ + error,
            JsonReply::Registration => "Failed to parse registration response: "@ + error,
            JsonReply::User => "Failed to parse user response: "@ + error,
        }
    }

    /// Message for a body that could not be read or decoded.
    pub fn failure(self, error: &str) -> (message: String)
        ensures
            message@ == self.failure_text(error@),
    {
        let mut message = String::from_str(
            match self {
                JsonReply::Login => "Failed to parse login response: ",
                JsonReply::Registration => "Failed to parse registration response: ",
                JsonReply::User => "Failed to parse user response: ",
            },
        );
        message.append(error);
        message
    }
}

} // verus!
