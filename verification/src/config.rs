//! The settings that the operations read from their surroundings.

use vstd::prelude::*;
use crate::error::{ConfigKey, SlackError};
use crate::http::text_view;

verus! {

/// The bearer token and the two channel identifiers, each as found: `None`
/// for a setting that is absent. Nothing is checked of a setting but that it
/// is there, and each operation asks only for those that it uses.
#[derive(Clone, Debug, PartialEq, Eq)]
pub struct Credentials {
    pub token: Option<String>,
    /// The channel that plain messages go to.
    pub channel: Option<String>,
    /// The channel that uploaded files are shared in.
    pub channel_id: Option<String>,
}

pub struct CredentialsView {
    pub token: Option<Seq<char>>,
    pub channel: Option<Seq<char>>,
    pub channel_id: Option<Seq<char>>,
}

impl View for Credentials {
    type V = CredentialsView;

    open spec fn view(&self) -> CredentialsView {
        CredentialsView {
            token: text_view(self.token),
            channel: text_view(self.channel),
            channel_id: text_view(self.channel_id),
        }
    }
}

impl CredentialsView {
    /// The setting under a key.
    pub open spec fn get(self, key: ConfigKey) -> Option<Seq<char>> {
        match key {
            ConfigKey::Token => self.token,
            ConfigKey::Channel => self.channel,
            ConfigKey::ChannelId => self.channel_id,
        }
    }

    /// The token and one more setting, or the first of the two that is
    /// missing, the token before the other.
    pub open spec fn pair(self, second: ConfigKey) -> Result<(Seq<char>, Seq<char>), SlackError> {
        match (self.token, self.get(second)) {
            (Some(token), Some(other)) => Ok((token, other)),
            (Some(_), None) => Err(SlackError::ConfigurationMissing(second)),
            (None, _) => Err(SlackError::ConfigurationMissing(ConfigKey::Token)),
        }
    }
}

/// The views of two settings, or the error in their place.
pub open spec fn pair_view(settings: Result<(String, String), SlackError>) -> Result<
    (Seq<char>, Seq<char>),
    SlackError,
> {
    match settings {
        Ok(found) => Ok((found.0@, found.1@)),
        Err(error) => Err(error),
    }
}

impl Credentials {
    /// The setting under a key, or the error that says it is missing.
    pub fn require(&self, key: ConfigKey) -> (setting: Result<String, SlackError>)
        ensures
            setting matches Ok(text) ==> self@.get(key) == Some(text@),
            setting matches Err(error) ==> self@.get(key) is None,
            setting matches Err(error) ==> error == SlackError::ConfigurationMissing(key),
    {
        let found = match key {
            ConfigKey::Token => &self.token,
            ConfigKey::Channel => &self.channel,
            ConfigKey::ChannelId => &self.channel_id,
        };
        match found {
            Some(text) => Ok(text.clone()),
            None => Err(SlackError::ConfigurationMissing(key)),
        }
    }

    /// The token and one more setting, looked up in that order.
    pub fn require_pair(&self, second: ConfigKey) -> (settings: Result<(String, String), SlackError>)
        ensures
            self@.pair(second) == pair_view(settings),
    {
        let token = match self.require(ConfigKey::Token) {
            Ok(token) => token,
            Err(error) => {
                return Err(error);
            },
        };
        match self.require(second) {
            Ok(other) => Ok((token, other)),
            Err(error) => Err(error),
        }
    }
}

} // verus!
