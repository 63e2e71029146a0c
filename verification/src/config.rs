//! Startup configuration. The embedding program reads its environment once
//! and hands the values here; what they mean is decided here.
//!
//! The credential is `SLACK_BOT_TOKEN`; `SLACK_TOKEN` is accepted in its place
//! where the first is not set. `SLACK_DEFAULT_CHANNEL` names the default
//! channel, `TRANSPORT` selects `stdio` or `sse`, and `SSE_HOST` and `SSE_PORT`
//! say where the `sse` transport listens.

use vstd::prelude::*;
use vstd::string::*;

verus! {

/// How the server talks to its client.
#[derive(Debug, Clone, Copy, PartialEq, Eq, Structural)]
pub enum Transport {
    /// Framed messages on standard input and output.
    Stdio,
    /// A long-lived HTTP listener with an event stream.
    Sse,
}

/// A configuration with which the server does not start.
#[derive(Debug)]
pub enum ConfigError {
    /// No credential was supplied.
    MissingToken,
    /// The transport selector is none of the known ones.
    UnknownTransport { value: String },
}

impl ConfigError {
    /// The text of the error.
    pub open spec fn text(self) -> Seq<char> {
        match self {
            ConfigError::MissingToken => "SLACK_BOT_TOKEN environment variable is not set"@,
            ConfigError::UnknownTransport { value } => "Unknown TRANSPORT: '"@ + value@
                + "'. Use 'stdio' or 'sse'."@,
        }
    }

    /// The text of the error, for the operator.
    pub fn message(&self) -> (s: String)
        ensures
            s@ == self.text(),
    {
        match self {
            ConfigError::MissingToken => String::from_str(
                "SLACK_BOT_TOKEN environment variable is not set",
            ),
            ConfigError::UnknownTransport { value } => String::from_str(
                "Unknown TRANSPORT: '",
            ).concat(value.as_str()).concat("'. Use 'stdio' or 'sse'."),
        }
    }
}

/// The credential among the two variables that may carry it: the first where
/// it is set, else the second.
pub open spec fn chosen_credential(bot_token: Option<String>, token: Option<String>) -> Option<
    Seq<char>,
> {
    match bot_token {
        Some(t) => Some(t@),
        None => match token {
            Some(t) => Some(t@),
            None => None,
        },
    }
}

/// The bearer credential, from the values of `SLACK_BOT_TOKEN` and of its
/// alias `SLACK_TOKEN`. Without either there is no serving.
pub fn credential(bot_token: Option<String>, token: Option<String>) -> (outcome: Result<
    String,
    ConfigError,
>)
    ensures
        match outcome {
            Ok(t) => chosen_credential(bot_token, token) == Some(t@),
            Err(e) => chosen_credential(bot_token, token) is None && e == ConfigError::MissingToken,
        },
{
    match bot_token {
        Some(t) => Ok(t),
        None => match token {
            Some(t) => Ok(t),
            None => Err(ConfigError::MissingToken),
        },
    }
}

/// A default channel counts only where it is set and not empty.
pub open spec fn usable_channel(value: Option<String>) -> Option<Seq<char>> {
    match value {
        Some(c) => if c@.len() > 0 {
            Some(c@)
        } else {
            None
        },
        None => None,
    }
}

/// The default channel, from the value of `SLACK_DEFAULT_CHANNEL`.
pub fn default_channel(value: Option<String>) -> (channel: Option<String>)
    ensures
        match channel {
            Some(c) => usable_channel(value) == Some(c@),
            None => usable_channel(value) is None,
        },
{
    match value {
        Some(c) => {
            if c.as_str().is_empty() {
                None
            } else {
                Some(c)
            }
        },
        None => None,
    }
}

/// The transport that a selector names; `stdio` where none is given.
pub open spec fn selected_transport(value: Option<String>) -> Option<Transport> {
    match value {
        None => Some(Transport::Stdio),
        Some(v) => if v@ == "stdio"@ {
            Some(Transport::Stdio)
        } else if v@ == "sse"@ {
            Some(Transport::Sse)
        } else {
            None
        },
    }
}

/// The transport, from the value of `TRANSPORT`. A selector that is neither
/// `stdio` nor `sse` is an error that carries the selector.
pub fn transport(value: Option<String>) -> (outcome: Result<Transport, ConfigError>)
    ensures
        match outcome {
            Ok(t) => selected_transport(value) == Some(t),
            Err(e) => selected_transport(value) is None && e == (ConfigError::UnknownTransport {
                value: value->0,
            }),
        },
{
    match value {
        None => Ok(Transport::Stdio),
        Some(v) => {
            if v == String::from_str("stdio") {
                Ok(Transport::Stdio)
            } else if v == String::from_str("sse") {
                Ok(Transport::Sse)
            } else {
                Err(ConfigError::UnknownTransport { value: v })
            }
        },
    }
}

/// The address that the `sse` transport binds: host, a colon, port, with
/// `127.0.0.1` and `8080` where they are not given.
pub open spec fn bind_text(host: Option<String>, port: Option<String>) -> Seq<char> {
    (match host {
        Some(h) => h@,
        None => "127.0.0.1"@,
    }) + ":"@ + (match port {
        Some(p) => p@,
        None => "8080"@,
    })
}

/// The address to listen on, from the values of `SSE_HOST` and `SSE_PORT`.
pub fn bind_address(host: Option<String>, port: Option<String>) -> (address: String)
    ensures
        address@ == bind_text(host, port),
{
    let host = match host {
        Some(h) => h,
        None => String::from_str("127.0.0.1"),
    };
    let port = match port {
        Some(p) => p,
        None => String::from_str("8080"),
    };
    host.concat(":").concat(port.as_str())
}

/// What the server tells its client about itself.
pub fn instructions() -> (s: String)
    ensures
        s@
            == "Slack integration tools. Requires SLACK_BOT_TOKEN env var (also accepts SLACK_TOKEN). Optionally set SLACK_DEFAULT_CHANNEL for a default channel."@,
{
    String::from_str(
        "Slack integration tools. Requires SLACK_BOT_TOKEN env var (also accepts SLACK_TOKEN). Optionally set SLACK_DEFAULT_CHANNEL for a default channel.",
    )
}

} // verus!
