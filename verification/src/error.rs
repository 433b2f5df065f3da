//! The ways in which an operation can fail.

use vstd::prelude::*;

verus! {

/// A setting that an operation reads from its surroundings.
#[derive(Clone, Copy, Debug, PartialEq, Eq, Structural)]
pub enum ConfigKey {
    /// The bearer credential.
    Token,
    /// The channel that plain messages go to.
    Channel,
    /// The channel that uploaded files are shared in.
    ChannelId,
}

/// One of the four HTTP calls that the client makes.
#[derive(Clone, Copy, Debug, PartialEq, Eq, Structural)]
pub enum Endpoint {
    PostMessage,
    RequestUploadUrl,
    PutBytes,
    CompleteUpload,
}

/// Why an operation ended without success.
#[derive(Clone, Copy, Debug, PartialEq, Eq, Structural)]
pub enum SlackError {
    /// A required setting is absent.
    ConfigurationMissing(ConfigKey),
    /// The call got no usable response: the transport failed, or the body
    /// could not be read.
    NetworkFailure(Endpoint),
    /// The vendor answered, and its answer says `ok: false`.
    ApiRejected(Endpoint),
    /// The answer is not JSON of the expected structure.
    MalformedResponse(Endpoint),
    /// A batch ended with no image ready to be shared.
    NoImagesPrepared,
}

impl ConfigKey {
    /// The name of the environment variable that holds this setting.
    pub fn name(&self) -> (name: &'static str)
        ensures
            name@ == self.name_text(),
    {
        match self {
            ConfigKey::Token => "TOKEN",
            ConfigKey::Channel => "CHANNEL",
            ConfigKey::ChannelId => "CHANNEL_ID",
        }
    }

    pub open spec fn name_text(&self) -> Seq<char> {
        match self {
            ConfigKey::Token => "TOKEN"@,
            ConfigKey::Channel => "CHANNEL"@,
            ConfigKey::ChannelId => "CHANNEL_ID"@,
        }
    }
}

impl SlackError {
    /// A sentence for the person who reads the diagnostics.
    pub fn message(&self) -> (text: &'static str)
        ensures
            text@ == self.message_text(),
    {
        match self {
            SlackError::ConfigurationMissing(ConfigKey::Token) => "environment variable TOKEN not found",
            SlackError::ConfigurationMissing(ConfigKey::Channel) => "environment variable CHANNEL not found",
            SlackError::ConfigurationMissing(ConfigKey::ChannelId) => "environment variable CHANNEL_ID not found",
            SlackError::NetworkFailure(_) => "The request did not get a response",
            SlackError::ApiRejected(Endpoint::CompleteUpload) => "Failed to complete the upload",
            SlackError::ApiRejected(_) => "Failed to get upload URL",
            SlackError::MalformedResponse(_) => "The response is not of the expected structure",
            SlackError::NoImagesPrepared => "No images were successfully prepared for upload",
        }
    }

    pub open spec fn message_text(&self) -> Seq<char> {
        match self {
            SlackError::ConfigurationMissing(ConfigKey::Token) => "environment variable TOKEN not found"@,
            SlackError::ConfigurationMissing(ConfigKey::Channel) => "environment variable CHANNEL not found"@,
            SlackError::ConfigurationMissing(ConfigKey::ChannelId) => "environment variable CHANNEL_ID not found"@,
            SlackError::NetworkFailure(_) => "The request did not get a response"@,
            SlackError::ApiRejected(Endpoint::CompleteUpload) => "Failed to complete the upload"@,
            SlackError::ApiRejected(_) => "Failed to get upload URL"@,
            SlackError::MalformedResponse(_) => "The response is not of the expected structure"@,
            SlackError::NoImagesPrepared => "No images were successfully prepared for upload"@,
        }
    }
}

} // verus!
