//! The requests that the commands send, described as plain values.

use crate::text::text_of;
use vstd::prelude::*;

verus! {

/// The commands that talk HTTP, one per kind of exchange.
#[derive(Clone, Copy, Debug, PartialEq, Eq, Structural)]
pub enum Command {
    /// Hand an image file to the sidecar for metadata extraction.
    ProcessImage,
    /// List the input channels of the signed-in user.
    ListChannels,
    /// Create an input channel.
    CreateChannel,
    /// Upload one photo record.
    UploadPhoto,
    /// Sign in with user name and password.
    Login,
    /// Create an account.
    Register,
    /// Give up the token.
    Logout,
    /// Ask the backend whose token this is.
    ValidateToken,
    /// Ask the sidecar whether it is up.
    CheckHealth,
}

/// HTTP method of a request.
#[derive(Clone, Copy, Debug, PartialEq, Eq, Structural)]
pub enum Method {
    Get,
    Post,
}

/// What travels in the body of a request.
#[derive(Clone, Copy, Debug, PartialEq, Eq, Structural)]
pub enum Payload {
    /// No body.
    Empty,
    /// The command's request value, as JSON.
    Json,
    /// A multipart form that carries the image file.
    Multipart,
}

/// One request, ready to be sent by the caller.
#[derive(Debug)]
pub struct Request {
    pub method: Method,
    pub url: String,
    /// Value of the `Authorization` header, if the header is sent.
    pub authorization: Option<String>,
    /// Value of the `Content-Type` header, if the caller sets it by hand.
    pub content_type: Option<String>,
    pub payload: Payload,
}

/// A request as contracts speak of it.
pub struct RequestView {
    pub method: Method,
    pub url: Seq<char>,
    pub authorization: Option<Seq<char>>,
    pub content_type: Option<Seq<char>>,
    pub payload: Payload,
}

impl View for Request {
    type V = RequestView;

    open spec fn view(&self) -> RequestView {
        RequestView {
            method: self.method,
            url: self.url@,
            authorization: text_of(self.authorization),
            content_type: text_of(self.content_type),
            payload: self.payload,
        }
    }
}

impl Command {
    /// Path of the command's endpoint, appended to the base URL as it stands.
    pub open spec fn path(self) -> Seq<char> {
        match self {
            Command::ProcessImage => "/v1/process"@,
            Command::ListChannels => "/api/v1/input-channels/"@,
            Command::CreateChannel => "/api/v1/input-channels/"@,
            Command::UploadPhoto => "/api/v1/photos/create"@,
            Command::Login => "/api/v1/auth/login/"@,
            Command::Register => "/api/v1/auth/register/"@,
            Command::Logout => "/api/v1/auth/logout/"@,
            Command::ValidateToken => "/api/v1/auth/me/"@,
            Command::CheckHealth => "/health"@,
        }
    }

    /// Method of the command's request.
    pub open spec fn method(self) -> Method {
        match self {
            Command::ListChannels | Command::ValidateToken | Command::CheckHealth => Method::Get,
            _ => Method::Post,
        }
    }

    /// What the command's request carries.
    pub open spec fn payload(self) -> Payload {
        match self {
            Command::ProcessImage => Payload::Multipart,
            Command::CreateChannel | Command::UploadPhoto | Command::Login | Command::Register =>
                Payload::Json,
            _ => Payload::Empty,
        }
    }

    /// Whether the command presents the bearer token.
    pub open spec fn authenticates(self) -> bool {
        match self {
            Command::ListChannels
            | Command::CreateChannel
            | Command::UploadPhoto
            | Command::Logout
            | Command::ValidateToken => true,
            _ => false,
        }
    }

    /// The request of this command against `base`, with `token` at hand.
    pub open spec fn request(self, base: Seq<char>, token: Option<Seq<char>>) -> RequestView {
        RequestView {
            method: self.method(),
            url: base + self.path(),
            authorization: if self.authenticates() {
                match token {
                    Some(t) => Some(bearer(t)),
                    None => None,
                }
            } else {
                None
            },
            content_type: if self.payload() == Payload::Json {
                Some(JSON_CONTENT_TYPE@)
            } else {
                None
            },
            payload: self.payload(),
        }
    }

    /// Path of the command's endpoint.
    pub fn endpoint(self) -> (path: &'static str)
        ensures
            path@ == self.path(),
    {
        match self {
            Command::ProcessImage => "/v1/process",
            Command::ListChannels => "/api/v1/input-channels/",
            Command::CreateChannel => "/api/v1/input-channels/",
            Command::UploadPhoto => "/api/v1/photos/create",
            Command::Login => "/api/v1/auth/login/",
            Command::Register => "/api/v1/auth/register/",
            Command::Logout => "/api/v1/auth/logout/",
            Command::ValidateToken => "/api/v1/auth/me/",
            Command::CheckHealth => "/health",
        }
    }

    /// Describes the command's request against `base_url`. A token is
    /// presented only by the commands that authenticate; the others ignore it.
    pub fn prepare(self, base_url: &str, token: Option<&str>) -> (request: Request)
        ensures
            request@ == self.request(
                base_url@,
                match token {
                    Some(t) => Some(t@),
                    None => None,
                },
            ),
    {
        let method = match self {
            Command::ListChannels | Command::ValidateToken | Command::CheckHealth => Method::Get,
            _ => Method::Post,
        };
        let payload = match self {
            Command::ProcessImage => Payload::Multipart,
            Command::CreateChannel | Command::UploadPhoto | Command::Login | Command::Register =>
                Payload::Json,
            _ => Payload::Empty,
        };
        let authenticates = match self {
            Command::ListChannels
            | Command::CreateChannel
            | Command::UploadPhoto
            | Command::Logout
            | Command::ValidateToken => true,
            _ => false,
        };
        let mut url = String::from_str(base_url);
        url.append(self.endpoint());
        let authorization = match token {
            Some(t) => if authenticates {
                Some(bearer_header(t))
            } else {
                None
            },
            None => None,
        };
        let content_type = match payload {
            Payload::Json => Some(String::from_str(JSON_CONTENT_TYPE)),
            _ => None,
        };
        Request { method, url, authorization, content_type, payload }
    }
}

/// Content type that announces a JSON body.
pub const JSON_CONTENT_TYPE: &'static str = "application/json";

/// Value of the `Authorization` header for a token.
pub open spec fn bearer(token: Seq<char>) -> Seq<char> {
    "Bearer "@ + token
}

/// Builds the value of the `Authorization` header for a token.
pub fn bearer_header(token: &str) -> (value: String)
    ensures
        value@ == bearer(token@),
{
    let mut value = String::from_str("Bearer ");
    value.append(token);
    value
}

} // verus!
