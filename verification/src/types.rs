//! The parameters of each tool, and the request body that each set of
//! parameters stands for.
//!
//! A field that is optional and was not supplied has no member in the body:
//! the API tells an omitted member from one that is null or empty.

use crate::json::{json_of, Json};
use vstd::prelude::*;

verus! {

/// The JSON string for a text that may be absent.
pub open spec fn optional_text(value: Option<String>) -> Option<Json> {
    match value {
        Some(s) => Some(Json::Text(s@)),
        None => None,
    }
}

/// The JSON number for a count that may be absent.
pub open spec fn optional_number(value: Option<u32>) -> Option<Json> {
    match value {
        Some(n) => Some(Json::Number(n as int)),
        None => None,
    }
}

/// The JSON boolean for a flag that may be absent.
pub open spec fn optional_flag(value: Option<bool>) -> Option<Json> {
    match value {
        Some(b) => Some(Json::Bool(b)),
        None => None,
    }
}

/// What a JSON value holds, where there is one.
pub open spec fn optional_value(value: Option<serde_json::Value>) -> Option<Json> {
    match value {
        Some(v) => Some(json_of(v)),
        None => None,
    }
}

/// The document content of a canvas: markdown, marked as such.
pub open spec fn markdown_document(markdown: Seq<char>) -> Json {
    Json::empty_object().with("type"@, Json::Text("markdown"@)).with(
        "markdown"@,
        Json::Text(markdown),
    )
}

/// The member names that meet in one body are different names: they differ
/// in length, or in their first character.
pub proof fn lemma_member_names_differ()
    ensures
        "channel"@.len() == 7,
        "text"@.len() == 4,
        "thread_ts"@.len() == 9,
        "reply_broadcast"@.len() == 15,
        "channel_id"@.len() == 10,
        "title"@.len() == 5,
        "document_content"@.len() == 16,
        "ts"@.len() == 2,
        "limit"@.len() == 5,
        "cursor"@.len() == 6,
        "types"@.len() == 5,
        "limit"@[0] != "types"@[0],
        "name"@.len() == 4,
        "description"@.len() == 11,
        "todo_mode"@.len() == 9,
        "schema"@.len() == 6,
        "id"@.len() == 2,
        "list_id"@.len() == 7,
        "initial_fields"@.len() == 14,
        "archived"@.len() == 8,
        "access_level"@.len() == 12,
        "channel_ids"@.len() == 11,
        "user_ids"@.len() == 8,
{
    reveal_strlit("channel");
    reveal_strlit("text");
    reveal_strlit("thread_ts");
    reveal_strlit("reply_broadcast");
    reveal_strlit("channel_id");
    reveal_strlit("title");
    reveal_strlit("document_content");
    reveal_strlit("ts");
    reveal_strlit("limit");
    reveal_strlit("cursor");
    reveal_strlit("types");
    reveal_strlit("name");
    reveal_strlit("description");
    reveal_strlit("todo_mode");
    reveal_strlit("schema");
    reveal_strlit("id");
    reveal_strlit("list_id");
    reveal_strlit("initial_fields");
    reveal_strlit("archived");
    reveal_strlit("access_level");
    reveal_strlit("channel_ids");
    reveal_strlit("user_ids");
}

// Messaging

#[derive(Debug)]
pub struct PostMessageParams {
    /// Slack channel ID (e.g. C0123456789). The default channel is used if
    /// omitted or empty.
    pub channel: Option<String>,
    /// Message text. Supports Slack mrkdwn formatting.
    pub text: String,
}

impl PostMessageParams {
    /// The body sent to `chat.postMessage`, once the channel is settled.
    pub open spec fn payload(self, channel: Seq<char>) -> Json {
        Json::empty_object().with("channel"@, Json::Text(channel)).with(
            "text"@,
            Json::Text(self.text@),
        )
    }
}

#[derive(Debug)]
pub struct ReplyToMessageParams {
    /// Slack channel ID where the parent message lives.
    pub channel: String,
    /// Timestamp (ts) of the parent message to reply to.
    pub thread_ts: String,
    /// Reply message text. Supports Slack mrkdwn formatting.
    pub text: String,
    /// If true, also post the reply to the channel (not just the thread).
    /// Defaults to false.
    pub reply_broadcast: Option<bool>,
}

impl ReplyToMessageParams {
    /// Whether the reply is also posted to the channel.
    pub open spec fn broadcast(self) -> bool {
        self.reply_broadcast == Some(true)
    }

    /// The body sent to `chat.postMessage`. The flag is a member only where
    /// it is true.
    pub open spec fn payload(self) -> Json {
        Json::empty_object().with("channel"@, Json::Text(self.channel@)).with(
            "text"@,
            Json::Text(self.text@),
        ).with("thread_ts"@, Json::Text(self.thread_ts@)).with_optional(
            "reply_broadcast"@,
            if self.broadcast() {
                Some(Json::Bool(true))
            } else {
                None
            },
        )
    }
}

// Canvas

#[derive(Debug)]
pub struct CreateCanvasParams {
    /// Title for the new canvas.
    pub title: String,
    /// Markdown content for the canvas body.
    pub markdown: String,
    /// Optional channel ID. If provided and not empty, the canvas is bound to
    /// the channel; otherwise it stands alone.
    pub channel_id: Option<String>,
}

impl CreateCanvasParams {
    /// Whether the canvas is bound to a channel.
    pub open spec fn channel_bound(self) -> bool {
        self.channel_id is Some && self.channel_id->0@.len() > 0
    }

    /// `conversations.canvases.create` for a canvas bound to a channel,
    /// `canvases.create` for one that stands alone.
    pub open spec fn method(self) -> Seq<char> {
        if self.channel_bound() {
            "conversations.canvases.create"@
        } else {
            "canvases.create"@
        }
    }

    /// The body: the channel and the content for a canvas bound to a channel,
    /// the title and the content for one that stands alone.
    pub open spec fn payload(self) -> Json {
        if self.channel_bound() {
            Json::empty_object().with("channel_id"@, Json::Text(self.channel_id->0@)).with(
                "document_content"@,
                markdown_document(self.markdown@),
            )
        } else {
            Json::empty_object().with("title"@, Json::Text(self.title@)).with(
                "document_content"@,
                markdown_document(self.markdown@),
            )
        }
    }
}

#[derive(Debug)]
pub struct UpdateCanvasParams {
    /// The canvas ID to update.
    pub canvas_id: String,
    /// New markdown content to replace the entire canvas body.
    pub markdown: String,
}

impl UpdateCanvasParams {
    /// The one change that is sent: replace everything by the markdown.
    pub open spec fn change(self) -> Json {
        Json::empty_object().with("operation"@, Json::Text("replace"@)).with(
            "document_content"@,
            markdown_document(self.markdown@),
        )
    }

    /// The body sent to `canvases.edit`.
    pub open spec fn payload(self) -> Json {
        Json::empty_object().with("canvas_id"@, Json::Text(self.canvas_id@)).with(
            "changes"@,
            Json::Array(seq![self.change()]),
        )
    }
}

// Channels

#[derive(Debug)]
pub struct ListChannelsParams {
    /// Maximum number of channels to return. Default 100, max 1000.
    pub limit: Option<u32>,
    /// Pagination cursor returned from a previous call.
    pub cursor: Option<String>,
    /// Comma-separated channel types: public_channel, private_channel, mpim,
    /// im. Default: public_channel.
    pub types: Option<String>,
}

impl ListChannelsParams {
    /// The body sent to `conversations.list`.
    pub open spec fn payload(self) -> Json {
        Json::empty_object().with_optional("limit"@, optional_number(self.limit)).with_optional(
            "cursor"@,
            optional_text(self.cursor),
        ).with_optional("types"@, optional_text(self.types))
    }
}

#[derive(Debug)]
pub struct ListMessagesParams {
    /// Channel ID to fetch message history from.
    pub channel: String,
    /// Maximum number of messages to return. Default 20, max 1000.
    pub limit: Option<u32>,
    /// Pagination cursor from a previous response.
    pub cursor: Option<String>,
}

impl ListMessagesParams {
    /// The body sent to `conversations.history`.
    pub open spec fn payload(self) -> Json {
        Json::empty_object().with("channel"@, Json::Text(self.channel@)).with_optional(
            "limit"@,
            optional_number(self.limit),
        ).with_optional("cursor"@, optional_text(self.cursor))
    }
}

#[derive(Debug)]
pub struct GetThreadRepliesParams {
    /// Channel ID containing the thread.
    pub channel: String,
    /// Timestamp (ts) of the parent message.
    pub ts: String,
    /// Maximum number of replies to return. Default 100, max 1000.
    pub limit: Option<u32>,
    /// Pagination cursor from a previous response.
    pub cursor: Option<String>,
}

impl GetThreadRepliesParams {
    /// The body sent to `conversations.replies`.
    pub open spec fn payload(self) -> Json {
        Json::empty_object().with("channel"@, Json::Text(self.channel@)).with(
            "ts"@,
            Json::Text(self.ts@),
        ).with_optional("limit"@, optional_number(self.limit)).with_optional(
            "cursor"@,
            optional_text(self.cursor),
        )
    }
}

// Reactions

#[derive(Debug)]
pub struct AddReactionParams {
    /// Channel ID where the message to react to was posted.
    pub channel: String,
    /// Timestamp of the message to add a reaction to.
    pub timestamp: String,
    /// Emoji name without colons (e.g. 'thumbsup', not ':thumbsup:').
    pub name: String,
}

impl AddReactionParams {
    /// The body sent to `reactions.add`.
    pub open spec fn payload(self) -> Json {
        Json::empty_object().with("channel"@, Json::Text(self.channel@)).with(
            "timestamp"@,
            Json::Text(self.timestamp@),
        ).with("name"@, Json::Text(self.name@))
    }
}

// Users

#[derive(Debug)]
pub struct GetUsersParams {
    /// Maximum number of users to return. Default 100, max 1000.
    pub limit: Option<u32>,
    /// Pagination cursor from a previous response.
    pub cursor: Option<String>,
}

impl GetUsersParams {
    /// The body sent to `users.list`.
    pub open spec fn payload(self) -> Json {
        Json::empty_object().with_optional("limit"@, optional_number(self.limit)).with_optional(
            "cursor"@,
            optional_text(self.cursor),
        )
    }
}

// Lists

#[derive(Debug)]
pub struct CreateListParams {
    /// Name of the new list.
    pub name: String,
    /// Description of the list.
    pub description: String,
    /// If true, the list behaves as a to-do list with done/not-done state per
    /// item.
    pub todo_mode: Option<bool>,
    /// Column schema definition for the list: a JSON object whose keys are
    /// column IDs and whose values describe each column. Omit to create a
    /// simple list with default columns.
    pub schema: Option<serde_json::Value>,
}

impl CreateListParams {
    /// The body sent to `lists.create`; the schema is passed through as it
    /// came.
    pub open spec fn payload(self) -> Json {
        Json::empty_object().with("name"@, Json::Text(self.name@)).with(
            "description"@,
            Json::Text(self.description@),
        ).with_optional("todo_mode"@, optional_flag(self.todo_mode)).with_optional(
            "schema"@,
            optional_value(self.schema),
        )
    }
}

#[derive(Debug)]
pub struct UpdateListParams {
    /// The list ID to update.
    pub id: String,
    /// New name for the list.
    pub name: Option<String>,
    /// New description for the list.
    pub description: Option<String>,
    /// Enable or disable to-do mode.
    pub todo_mode: Option<bool>,
}

impl UpdateListParams {
    /// The body sent to `lists.update`.
    pub open spec fn payload(self) -> Json {
        Json::empty_object().with("id"@, Json::Text(self.id@)).with_optional(
            "name"@,
            optional_text(self.name),
        ).with_optional("description"@, optional_text(self.description)).with_optional(
            "todo_mode"@,
            optional_flag(self.todo_mode),
        )
    }
}

#[derive(Debug)]
pub struct CreateListItemParams {
    /// The list ID to add the item to.
    pub list_id: String,
    /// JSON object of initial field values keyed by column ID.
    pub initial_fields: Option<serde_json::Value>,
}

impl CreateListItemParams {
    /// The body sent to `lists.items.create`.
    pub open spec fn payload(self) -> Json {
        Json::empty_object().with("list_id"@, Json::Text(self.list_id@)).with_optional(
            "initial_fields"@,
            optional_value(self.initial_fields),
        )
    }
}

#[derive(Debug)]
pub struct ListListItemsParams {
    /// The list ID to fetch items from.
    pub list_id: String,
    /// Maximum number of items to return.
    pub limit: Option<u32>,
    /// Pagination cursor from a previous response.
    pub cursor: Option<String>,
    /// If true, include archived items.
    pub archived: Option<bool>,
}

impl ListListItemsParams {
    /// The body sent to `lists.items.list`.
    pub open spec fn payload(self) -> Json {
        Json::empty_object().with("list_id"@, Json::Text(self.list_id@)).with_optional(
            "limit"@,
            optional_number(self.limit),
        ).with_optional("cursor"@, optional_text(self.cursor)).with_optional(
            "archived"@,
            optional_flag(self.archived),
        )
    }
}

#[derive(Debug)]
pub struct GetListItemParams {
    /// The list ID containing the item.
    pub list_id: String,
    /// The item ID to retrieve.
    pub id: String,
}

impl GetListItemParams {
    /// The body sent to `lists.items.info`.
    pub open spec fn payload(self) -> Json {
        Json::empty_object().with("list_id"@, Json::Text(self.list_id@)).with(
            "id"@,
            Json::Text(self.id@),
        )
    }
}

#[derive(Debug)]
pub struct UpdateListItemParams {
    /// The list ID containing the item.
    pub list_id: String,
    /// JSON object of field values to update, keyed by column ID.
    pub cells: serde_json::Value,
}

impl UpdateListItemParams {
    /// The body sent to `lists.items.update`.
    pub open spec fn payload(self) -> Json {
        Json::empty_object().with("list_id"@, Json::Text(self.list_id@)).with(
            "cells"@,
            json_of(self.cells),
        )
    }
}

#[derive(Debug)]
pub struct DeleteListItemParams {
    /// The list ID containing the item.
    pub list_id: String,
    /// The item ID to delete.
    pub id: String,
}

impl DeleteListItemParams {
    /// The body sent to `lists.items.delete`.
    pub open spec fn payload(self) -> Json {
        Json::empty_object().with("list_id"@, Json::Text(self.list_id@)).with(
            "id"@,
            Json::Text(self.id@),
        )
    }
}

#[derive(Debug)]
pub struct DeleteListItemsParams {
    /// The list ID containing the items.
    pub list_id: String,
    /// Array of item IDs to delete.
    pub ids: serde_json::Value,
}

impl DeleteListItemsParams {
    /// The body sent to `lists.items.deleteMultiple`.
    pub open spec fn payload(self) -> Json {
        Json::empty_object().with("list_id"@, Json::Text(self.list_id@)).with(
            "ids"@,
            json_of(self.ids),
        )
    }
}

#[derive(Debug)]
pub struct SetListAccessParams {
    /// The list ID to modify access for.
    pub list_id: String,
    /// Access level to grant: 'read', 'write', or 'owner'.
    pub access_level: String,
    /// Channel IDs to grant access to.
    pub channel_ids: Option<serde_json::Value>,
    /// User IDs to grant access to.
    pub user_ids: Option<serde_json::Value>,
}

impl SetListAccessParams {
    /// The body sent to `lists.access.set`.
    pub open spec fn payload(self) -> Json {
        Json::empty_object().with("list_id"@, Json::Text(self.list_id@)).with(
            "access_level"@,
            Json::Text(self.access_level@),
        ).with_optional("channel_ids"@, optional_value(self.channel_ids)).with_optional(
            "user_ids"@,
            optional_value(self.user_ids),
        )
    }
}

#[derive(Debug)]
pub struct DeleteListAccessParams {
    /// The list ID to revoke access from.
    pub list_id: String,
    /// Channel IDs to revoke access from.
    pub channel_ids: Option<serde_json::Value>,
    /// User IDs to revoke access from.
    pub user_ids: Option<serde_json::Value>,
}

impl DeleteListAccessParams {
    /// The body sent to `lists.access.delete`.
    pub open spec fn payload(self) -> Json {
        Json::empty_object().with("list_id"@, Json::Text(self.list_id@)).with_optional(
            "channel_ids"@,
            optional_value(self.channel_ids),
        ).with_optional("user_ids"@, optional_value(self.user_ids))
    }
}

} // verus!
