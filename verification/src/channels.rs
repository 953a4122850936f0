//! Input channels: the backend's groups that imported photos belong to.

use crate::request::{Command, Request};
use crate::text::text_of;
use vstd::prelude::*;

verus! {

/// An input channel as the backend describes one.
#[derive(Debug, Clone)]
pub struct InputChannel {
    pub id: i32,
    pub imported_at: String,
    /// Absent where the backend holds none.
    pub title: Option<String>,
    pub description: Option<String>,
    pub default_author_id: Option<i32>,
    pub images_count: i32,
}

/// The backend's answer to a request for the list of channels.
#[derive(Debug)]
pub struct InputChannelListResponse {
    pub channels: Vec<InputChannel>,
    pub total: i32,
}

/// Body of a request that creates a channel.
#[derive(Debug)]
pub struct InputChannelCreate {
    pub title: Option<String>,
    pub description: Option<String>,
    pub default_author_id: Option<i32>,
}

impl InputChannelListResponse {
    /// The channels of the answer, which is all that the command returns.
    pub fn into_channels(self) -> (channels: Vec<InputChannel>)
        ensures
            channels == self.channels,
    {
        self.channels
    }
}

/// Prepares the request for the list of channels.
pub fn list_input_channels(backend_url: &str, auth_token: &str) -> (request: Request)
    ensures
        request@ == Command::ListChannels.request(backend_url@, Some(auth_token@)),
{
    Command::ListChannels.prepare(backend_url, Some(auth_token))
}

/// Prepares the creation of a channel: the request and its body.
pub fn create_input_channel(
    backend_url: &str,
    title: Option<String>,
    description: Option<String>,
    default_author_id: Option<i32>,
    auth_token: &str,
) -> (plan: (Request, InputChannelCreate))
    ensures
        plan.0@ == Command::CreateChannel.request(backend_url@, Some(auth_token@)),
        text_of(plan.1.title) == text_of(title),
        text_of(plan.1.description) == text_of(description),
        plan.1.default_author_id == default_author_id,
{
    (
        Command::CreateChannel.prepare(backend_url, Some(auth_token)),
        InputChannelCreate { title, description, default_author_id },
    )
}

} // verus!
