//! Slack Web API operations as tools: each tool invocation is turned into one
//! validated API call, and each API reply into a tool result or a structured
//! error. The crate decides and computes; sending the request is left to the
//! program that embeds it.
//!
//! - [`config`]: what the startup configuration means.
//! - [`types`]: the parameters of each tool and the request body they stand
//!   for.
//! - [`request`]: the closed set of tool requests, and the API call of each.
//! - [`tools`]: the dispatcher: channel resolution, one builder per tool, and
//!   the wrapping of results and errors.
//! - [`slack_client`]: the API client: the HTTP request of a call, and the
//!   judgement on a reply.
//! - [`status`]: HTTP status codes in error texts.
//! - [`json`]: the boundary to `serde_json`.
//! - [`text`]: decimal numerals and the search for a text in another.

pub mod config;
pub mod json;
pub mod request;
pub mod slack_client;
pub mod status;
pub mod text;
pub mod tools;
pub mod types;
