//! The tools. Each operation turns its parameters into one call of the Slack
//! Web API, and what the API client made of the reply into the tool's result:
//! the reply's JSON as text, or a structured error.

use crate::json;
use crate::json::{json_of, text_of, Json};
use crate::slack_client::{
    acknowledged, error_code, lemma_refusal_names_method_and_code, lemma_status_is_judged_first,
    judged, judged_reply, ClientError, ClientErrorView, SlackClient,
};
use crate::status::is_success;
use crate::text::{decimal, occurs_in};
use crate::types::{
    lemma_member_names_differ, markdown_document, optional_flag, optional_number, optional_text, optional_value,
    AddReactionParams, CreateCanvasParams, CreateListItemParams, CreateListParams,
    DeleteListAccessParams, DeleteListItemParams, DeleteListItemsParams, GetListItemParams,
    GetThreadRepliesParams, GetUsersParams, ListChannelsParams, ListListItemsParams,
    ListMessagesParams, PostMessageParams, ReplyToMessageParams, SetListAccessParams,
    UpdateCanvasParams, UpdateListItemParams, UpdateListParams,
};
use vstd::prelude::*;
use vstd::string::*;

verus! {

/// The code of an error in the parameters of a tool.
pub const INVALID_PARAMS: i32 = -32602;

/// The code of every error that the API client reports.
pub const INTERNAL_ERROR: i32 = -32603;

/// One call of the Slack Web API: the method to call and the body to send.
#[derive(Debug)]
pub struct ApiCall {
    pub method: String,
    pub body: serde_json::Value,
}

/// The failure of a tool: a numeric code and a text.
#[derive(Debug)]
pub struct ToolError {
    pub code: i32,
    pub message: String,
}

/// The mathematical model of a [`ToolError`].
pub struct ToolErrorView {
    pub code: i32,
    pub message: Seq<char>,
}

impl View for ToolError {
    type V = ToolErrorView;

    open spec fn view(&self) -> ToolErrorView {
        ToolErrorView { code: self.code, message: self.message@ }
    }
}

/// The dispatcher: the API client and the default channel, fixed when the
/// process starts and only read afterwards.
pub struct SlackTools {
    client: SlackClient,
    default_channel: Option<String>,
}

/// The mathematical model of a [`SlackTools`].
pub struct SlackToolsView {
    pub token: Seq<char>,
    pub default_channel: Option<Seq<char>>,
}

impl View for SlackTools {
    type V = SlackToolsView;

    closed spec fn view(&self) -> SlackToolsView {
        SlackToolsView {
            token: self.client.token(),
            default_channel: text_view(self.default_channel),
        }
    }
}

/// The characters of a text that may be absent.
pub open spec fn text_view(value: Option<String>) -> Option<Seq<char>> {
    match value {
        Some(s) => Some(s@),
        None => None,
    }
}

/// The channel that a message goes to: the one given where it is not empty,
/// else the default channel where there is one and it is not empty.
pub open spec fn resolved_channel(given: Option<Seq<char>>, default: Option<Seq<char>>) -> Option<
    Seq<char>,
> {
    if given is Some && given->0.len() > 0 {
        given
    } else if default is Some && default->0.len() > 0 {
        default
    } else {
        None
    }
}

/// The error for a message without a channel.
pub open spec fn channel_required() -> ToolErrorView {
    ToolErrorView {
        code: INVALID_PARAMS,
        message: "channel is required (or set SLACK_DEFAULT_CHANNEL env var)"@,
    }
}

/// The error that a tool reports for an error of the API client: always an
/// internal error, with the client error's text.
pub open spec fn failure(error: ClientErrorView) -> ToolErrorView {
    ToolErrorView { code: INTERNAL_ERROR, message: error.message() }
}

/// The result of a tool for what the API client made of the reply: the
/// reply's JSON text, as `serde_json` writes it, or the failure.
pub open spec fn tool_result(outcome: Result<serde_json::Value, ClientErrorView>) -> Result<
    Seq<char>,
    ToolErrorView,
> {
    match outcome {
        Ok(body) => Ok(text_of(body)),
        Err(e) => Err(failure(e)),
    }
}

/// Whether a tool's result is the one that the model gives.
pub open spec fn delivers(
    result: Result<String, ToolError>,
    model: Result<Seq<char>, ToolErrorView>,
) -> bool {
    match result {
        Ok(text) => model == Ok::<Seq<char>, ToolErrorView>(text@),
        Err(e) => model == Err::<Seq<char>, ToolErrorView>(e@),
    }
}

/// Sets the member `name` to a text, where there is one.
fn set_text(body: &mut serde_json::Value, name: &str, value: Option<String>)
    requires
        json_of(*old(body)) is Object,
    ensures
        json_of(*final(body)) == json_of(*old(body)).with_optional(name@, optional_text(value)),
{
    match value {
        Some(s) => json::set(body, name, json::text(s)),
        None => {},
    }
}

/// Sets the member `name` to a number, where there is one.
fn set_number(body: &mut serde_json::Value, name: &str, value: Option<u32>)
    requires
        json_of(*old(body)) is Object,
    ensures
        json_of(*final(body)) == json_of(*old(body)).with_optional(name@, optional_number(value)),
{
    match value {
        Some(n) => json::set(body, name, json::number(n)),
        None => {},
    }
}

/// Sets the member `name` to a flag, where there is one.
fn set_flag(body: &mut serde_json::Value, name: &str, value: Option<bool>)
    requires
        json_of(*old(body)) is Object,
    ensures
        json_of(*final(body)) == json_of(*old(body)).with_optional(name@, optional_flag(value)),
{
    match value {
        Some(b) => json::set(body, name, json::boolean(b)),
        None => {},
    }
}

/// Sets the member `name` to a JSON value as it came, where there is one.
fn set_value(body: &mut serde_json::Value, name: &str, value: Option<serde_json::Value>)
    requires
        json_of(*old(body)) is Object,
    ensures
        json_of(*final(body)) == json_of(*old(body)).with_optional(name@, optional_value(value)),
{
    match value {
        Some(v) => json::set(body, name, v),
        None => {},
    }
}

/// The document content of a canvas.
fn markdown_content(markdown: String) -> (content: serde_json::Value)
    ensures
        json_of(content) == markdown_document(markdown@),
{
    let mut content = json::object();
    json::set(&mut content, "type", json::text(String::from_str("markdown")));
    json::set(&mut content, "markdown", json::text(markdown));
    content
}

impl SlackTools {
    /// The tools of a client, with the default channel for messages that
    /// name none.
    pub fn new(client: SlackClient, default_channel: Option<String>) -> (tools: SlackTools)
        ensures
            tools@.token == client.token(),
            tools@.default_channel == text_view(default_channel),
    {
        SlackTools { client, default_channel }
    }

    /// The API client that performs the calls.
    pub fn client(&self) -> (client: &SlackClient)
        ensures
            client.token() == self@.token,
    {
        &self.client
    }

    /// Settles the channel of a message. Without a channel, given or
    /// default, the parameters are invalid.
    pub fn resolve_channel(&self, channel: Option<String>) -> (outcome: Result<String, ToolError>)
        ensures
            match outcome {
                Ok(c) => resolved_channel(text_view(channel), self@.default_channel) == Some(c@),
                Err(e) => resolved_channel(text_view(channel), self@.default_channel) is None && e@
                    == channel_required(),
            },
    {
        match channel {
            Some(c) if !c.as_str().is_empty() => { return Ok(c); },
            _ => {},
        }
        match &self.default_channel {
            Some(d) if !d.as_str().is_empty() => { return Ok(d.clone()); },
            _ => {},
        }
        Err(
            ToolError {
                code: INVALID_PARAMS,
                message: String::from_str(
                    "channel is required (or set SLACK_DEFAULT_CHANNEL env var)",
                ),
            },
        )
    }

    /// The tool error for an error of the API client.
    pub fn err(error: ClientError) -> (e: ToolError)
        ensures
            e@ == failure(error@),
    {
        ToolError { code: INTERNAL_ERROR, message: error.message() }
    }

    /// The result of a tool, from what the API client made of the reply.
    pub fn finish(outcome: Result<serde_json::Value, ClientError>) -> (result: Result<
        String,
        ToolError,
    >)
        ensures
            match outcome {
                Ok(body) => delivers(result, Ok(text_of(body))),
                Err(e) => delivers(result, Err(failure(e@))),
            },
    {
        match outcome {
            Ok(body) => Ok(json::write(&body)),
            Err(e) => Err(SlackTools::err(e)),
        }
    }

    /// The result of a tool, from the reply to its call of `method` as it
    /// came: the status and the bytes of the body.
    pub fn conclude(method: &str, status: u16, bytes: &[u8]) -> (result: Result<String, ToolError>)
        ensures
            delivers(result, tool_result(judged_reply(method@, status, bytes@))),
    {
        SlackTools::finish(SlackClient::receive(method, status, bytes))
    }

    /// Posts a message to a channel: the one given, or the default channel.
    /// Without either nothing is to be sent.
    pub fn post_message(&self, params: PostMessageParams) -> (outcome: Result<ApiCall, ToolError>)
        ensures
            match outcome {
                Ok(call) => {
                    let channel = resolved_channel(
                        text_view(params.channel),
                        self@.default_channel,
                    );
                    &&& channel is Some
                    &&& call.method@ == "chat.postMessage"@
                    &&& json_of(call.body) == params.payload(channel->0)
                    &&& json_of(call.body).member("channel"@) == Json::Text(channel->0)
                },
                Err(e) => resolved_channel(text_view(params.channel), self@.default_channel)
                    is None && e@ == channel_required(),
            },
    {
        proof {
            lemma_member_names_differ();
        }
        let PostMessageParams { channel, text } = params;
        match self.resolve_channel(channel) {
            Ok(channel) => {
                let mut body = json::object();
                json::set(&mut body, "channel", json::text(channel));
                json::set(&mut body, "text", json::text(text));
                Ok(ApiCall { method: String::from_str("chat.postMessage"), body })
            },
            Err(e) => Err(e),
        }
    }

    /// Replies to a message in its thread. The reply is broadcast to the
    /// channel only where that is asked for.
    pub fn reply_to_message(&self, params: ReplyToMessageParams) -> (call: ApiCall)
        ensures
            call.method@ == "chat.postMessage"@,
            json_of(call.body) == params.payload(),
            json_of(call.body).has("reply_broadcast"@) <==> params.reply_broadcast == Some(true),
            params.reply_broadcast == Some(true) ==> json_of(call.body).member("reply_broadcast"@)
                == Json::Bool(true),
    {
        proof {
            lemma_member_names_differ();
        }
        let ReplyToMessageParams { channel, thread_ts, text, reply_broadcast } = params;
        let mut body = json::object();
        json::set(&mut body, "channel", json::text(channel));
        json::set(&mut body, "text", json::text(text));
        json::set(&mut body, "thread_ts", json::text(thread_ts));
        match reply_broadcast {
            Some(true) => json::set(&mut body, "reply_broadcast", json::boolean(true)),
            _ => {},
        }
        ApiCall { method: String::from_str("chat.postMessage"), body }
    }

    /// Creates a canvas from markdown: one bound to a channel where a channel
    /// is given and not empty, one that stands alone otherwise.
    pub fn create_canvas(&self, params: CreateCanvasParams) -> (call: ApiCall)
        ensures
            call.method@ == params.method(),
            json_of(call.body) == params.payload(),
            json_of(call.body).member("document_content"@) == markdown_document(params.markdown@),
            json_of(call.body).has("channel_id"@) <==> params.channel_bound(),
            json_of(call.body).has("title"@) <==> !params.channel_bound(),
    {
        proof {
            lemma_member_names_differ();
        }
        let CreateCanvasParams { title, markdown, channel_id } = params;
        let content = markdown_content(markdown);
        let mut body = json::object();
        match channel_id {
            Some(channel) if !channel.as_str().is_empty() => {
                json::set(&mut body, "channel_id", json::text(channel));
                json::set(&mut body, "document_content", content);
                ApiCall { method: String::from_str("conversations.canvases.create"), body }
            },
            _ => {
                json::set(&mut body, "title", json::text(title));
                json::set(&mut body, "document_content", content);
                ApiCall { method: String::from_str("canvases.create"), body }
            },
        }
    }

    /// Replaces the whole content of a canvas by new markdown.
    pub fn update_canvas(&self, params: UpdateCanvasParams) -> (call: ApiCall)
        ensures
            call.method@ == "canvases.edit"@,
            json_of(call.body) == params.payload(),
    {
        let UpdateCanvasParams { canvas_id, markdown } = params;
        let mut change = json::object();
        json::set(&mut change, "operation", json::text(String::from_str("replace")));
        json::set(&mut change, "document_content", markdown_content(markdown));
        let mut changes: Vec<serde_json::Value> = Vec::new();
        changes.push(change);
        assert(changes@.map_values(|item: serde_json::Value| json_of(item)) =~= seq![
            params.change(),
        ]);
        let mut body = json::object();
        json::set(&mut body, "canvas_id", json::text(canvas_id));
        json::set(&mut body, "changes", json::array(changes));
        ApiCall { method: String::from_str("canvases.edit"), body }
    }

    /// Lists the channels that the bot has access to.
    pub fn list_channels(&self, params: ListChannelsParams) -> (call: ApiCall)
        ensures
            call.method@ == "conversations.list"@,
            json_of(call.body) == params.payload(),
            json_of(call.body).has("limit"@) <==> params.limit is Some,
            json_of(call.body).has("cursor"@) <==> params.cursor is Some,
            json_of(call.body).has("types"@) <==> params.types is Some,
    {
        proof {
            lemma_member_names_differ();
        }
        let ListChannelsParams { limit, cursor, types } = params;
        let mut body = json::object();
        set_number(&mut body, "limit", limit);
        set_text(&mut body, "cursor", cursor);
        set_text(&mut body, "types", types);
        ApiCall { method: String::from_str("conversations.list"), body }
    }

    /// Gets recent messages of a channel.
    pub fn list_messages(&self, params: ListMessagesParams) -> (call: ApiCall)
        ensures
            call.method@ == "conversations.history"@,
            json_of(call.body) == params.payload(),
            json_of(call.body).has("limit"@) <==> params.limit is Some,
            json_of(call.body).has("cursor"@) <==> params.cursor is Some,
    {
        proof {
            lemma_member_names_differ();
        }
        let ListMessagesParams { channel, limit, cursor } = params;
        let mut body = json::object();
        json::set(&mut body, "channel", json::text(channel));
        set_number(&mut body, "limit", limit);
        set_text(&mut body, "cursor", cursor);
        ApiCall { method: String::from_str("conversations.history"), body }
    }

    /// Gets the replies in the thread of a message.
    pub fn get_thread_replies(&self, params: GetThreadRepliesParams) -> (call: ApiCall)
        ensures
            call.method@ == "conversations.replies"@,
            json_of(call.body) == params.payload(),
            json_of(call.body).has("limit"@) <==> params.limit is Some,
            json_of(call.body).has("cursor"@) <==> params.cursor is Some,
    {
        proof {
            lemma_member_names_differ();
        }
        let GetThreadRepliesParams { channel, ts, limit, cursor } = params;
        let mut body = json::object();
        json::set(&mut body, "channel", json::text(channel));
        json::set(&mut body, "ts", json::text(ts));
        set_number(&mut body, "limit", limit);
        set_text(&mut body, "cursor", cursor);
        ApiCall { method: String::from_str("conversations.replies"), body }
    }

    /// Adds an emoji reaction to a message.
    pub fn add_reaction(&self, params: AddReactionParams) -> (call: ApiCall)
        ensures
            call.method@ == "reactions.add"@,
            json_of(call.body) == params.payload(),
    {
        let AddReactionParams { channel, timestamp, name } = params;
        let mut body = json::object();
        json::set(&mut body, "channel", json::text(channel));
        json::set(&mut body, "timestamp", json::text(timestamp));
        json::set(&mut body, "name", json::text(name));
        ApiCall { method: String::from_str("reactions.add"), body }
    }

    /// Lists the users of the workspace.
    pub fn get_users(&self, params: GetUsersParams) -> (call: ApiCall)
        ensures
            call.method@ == "users.list"@,
            json_of(call.body) == params.payload(),
            json_of(call.body).has("limit"@) <==> params.limit is Some,
            json_of(call.body).has("cursor"@) <==> params.cursor is Some,
    {
        proof {
            lemma_member_names_differ();
        }
        let GetUsersParams { limit, cursor } = params;
        let mut body = json::object();
        set_number(&mut body, "limit", limit);
        set_text(&mut body, "cursor", cursor);
        ApiCall { method: String::from_str("users.list"), body }
    }

    /// Creates a list.
    pub fn create_list(&self, params: CreateListParams) -> (call: ApiCall)
        ensures
            call.method@ == "lists.create"@,
            json_of(call.body) == params.payload(),
            json_of(call.body).has("todo_mode"@) <==> params.todo_mode is Some,
            json_of(call.body).has("schema"@) <==> params.schema is Some,
    {
        proof {
            lemma_member_names_differ();
        }
        let CreateListParams { name, description, todo_mode, schema } = params;
        let mut body = json::object();
        json::set(&mut body, "name", json::text(name));
        json::set(&mut body, "description", json::text(description));
        set_flag(&mut body, "todo_mode", todo_mode);
        set_value(&mut body, "schema", schema);
        ApiCall { method: String::from_str("lists.create"), body }
    }

    /// Updates the name, the description or the to-do mode of a list.
    pub fn update_list(&self, params: UpdateListParams) -> (call: ApiCall)
        ensures
            call.method@ == "lists.update"@,
            json_of(call.body) == params.payload(),
            json_of(call.body).has("name"@) <==> params.name is Some,
            json_of(call.body).has("description"@) <==> params.description is Some,
            json_of(call.body).has("todo_mode"@) <==> params.todo_mode is Some,
    {
        proof {
            lemma_member_names_differ();
        }
        let UpdateListParams { id, name, description, todo_mode } = params;
        let mut body = json::object();
        json::set(&mut body, "id", json::text(id));
        set_text(&mut body, "name", name);
        set_text(&mut body, "description", description);
        set_flag(&mut body, "todo_mode", todo_mode);
        ApiCall { method: String::from_str("lists.update"), body }
    }

    /// Adds an item to a list.
    pub fn create_list_item(&self, params: CreateListItemParams) -> (call: ApiCall)
        ensures
            call.method@ == "lists.items.create"@,
            json_of(call.body) == params.payload(),
            json_of(call.body).has("initial_fields"@) <==> params.initial_fields is Some,
    {
        proof {
            lemma_member_names_differ();
        }
        let CreateListItemParams { list_id, initial_fields } = params;
        let mut body = json::object();
        json::set(&mut body, "list_id", json::text(list_id));
        set_value(&mut body, "initial_fields", initial_fields);
        ApiCall { method: String::from_str("lists.items.create"), body }
    }

    /// Lists the items of a list.
    pub fn list_list_items(&self, params: ListListItemsParams) -> (call: ApiCall)
        ensures
            call.method@ == "lists.items.list"@,
            json_of(call.body) == params.payload(),
            json_of(call.body).has("limit"@) <==> params.limit is Some,
            json_of(call.body).has("cursor"@) <==> params.cursor is Some,
            json_of(call.body).has("archived"@) <==> params.archived is Some,
    {
        proof {
            lemma_member_names_differ();
        }
        let ListListItemsParams { list_id, limit, cursor, archived } = params;
        let mut body = json::object();
        json::set(&mut body, "list_id", json::text(list_id));
        set_number(&mut body, "limit", limit);
        set_text(&mut body, "cursor", cursor);
        set_flag(&mut body, "archived", archived);
        ApiCall { method: String::from_str("lists.items.list"), body }
    }

    /// Gets one item of a list.
    pub fn get_list_item(&self, params: GetListItemParams) -> (call: ApiCall)
        ensures
            call.method@ == "lists.items.info"@,
            json_of(call.body) == params.payload(),
    {
        let GetListItemParams { list_id, id } = params;
        let mut body = json::object();
        json::set(&mut body, "list_id", json::text(list_id));
        json::set(&mut body, "id", json::text(id));
        ApiCall { method: String::from_str("lists.items.info"), body }
    }

    /// Updates fields of an item of a list.
    pub fn update_list_item(&self, params: UpdateListItemParams) -> (call: ApiCall)
        ensures
            call.method@ == "lists.items.update"@,
            json_of(call.body) == params.payload(),
    {
        let UpdateListItemParams { list_id, cells } = params;
        let mut body = json::object();
        json::set(&mut body, "list_id", json::text(list_id));
        json::set(&mut body, "cells", cells);
        ApiCall { method: String::from_str("lists.items.update"), body }
    }

    /// Deletes one item of a list.
    pub fn delete_list_item(&self, params: DeleteListItemParams) -> (call: ApiCall)
        ensures
            call.method@ == "lists.items.delete"@,
            json_of(call.body) == params.payload(),
    {
        let DeleteListItemParams { list_id, id } = params;
        let mut body = json::object();
        json::set(&mut body, "list_id", json::text(list_id));
        json::set(&mut body, "id", json::text(id));
        ApiCall { method: String::from_str("lists.items.delete"), body }
    }

    /// Deletes several items of a list at once.
    pub fn delete_list_items(&self, params: DeleteListItemsParams) -> (call: ApiCall)
        ensures
            call.method@ == "lists.items.deleteMultiple"@,
            json_of(call.body) == params.payload(),
    {
        let DeleteListItemsParams { list_id, ids } = params;
        let mut body = json::object();
        json::set(&mut body, "list_id", json::text(list_id));
        json::set(&mut body, "ids", ids);
        ApiCall { method: String::from_str("lists.items.deleteMultiple"), body }
    }

    /// Grants users or channels access to a list.
    pub fn set_list_access(&self, params: SetListAccessParams) -> (call: ApiCall)
        ensures
            call.method@ == "lists.access.set"@,
            json_of(call.body) == params.payload(),
            json_of(call.body).has("channel_ids"@) <==> params.channel_ids is Some,
            json_of(call.body).has("user_ids"@) <==> params.user_ids is Some,
    {
        proof {
            lemma_member_names_differ();
        }
        let SetListAccessParams { list_id, access_level, channel_ids, user_ids } = params;
        let mut body = json::object();
        json::set(&mut body, "list_id", json::text(list_id));
        json::set(&mut body, "access_level", json::text(access_level));
        set_value(&mut body, "channel_ids", channel_ids);
        set_value(&mut body, "user_ids", user_ids);
        ApiCall { method: String::from_str("lists.access.set"), body }
    }

    /// Revokes the access of users or channels to a list.
    pub fn delete_list_access(&self, params: DeleteListAccessParams) -> (call: ApiCall)
        ensures
            call.method@ == "lists.access.delete"@,
            json_of(call.body) == params.payload(),
            json_of(call.body).has("channel_ids"@) <==> params.channel_ids is Some,
            json_of(call.body).has("user_ids"@) <==> params.user_ids is Some,
    {
        proof {
            lemma_member_names_differ();
        }
        let DeleteListAccessParams { list_id, channel_ids, user_ids } = params;
        let mut body = json::object();
        json::set(&mut body, "list_id", json::text(list_id));
        set_value(&mut body, "channel_ids", channel_ids);
        set_value(&mut body, "user_ids", user_ids);
        ApiCall { method: String::from_str("lists.access.delete"), body }
    }
}

/// A reply that acknowledges the call reaches the caller as the JSON text of
/// its body, and as nothing else.
pub proof fn lemma_acknowledged_reply_is_passed_on(
    method: Seq<char>,
    status: u16,
    body: serde_json::Value,
)
    requires
        is_success(status),
        acknowledged(json_of(body)),
    ensures
        tool_result(judged(method, status, body)) == Ok::<Seq<char>, ToolErrorView>(
            text_of(body),
        ),
{
}

/// A refusal by the API reaches the caller as an internal error whose text
/// holds the error code of the reply and the method that was called.
pub proof fn lemma_refusal_is_reported(method: Seq<char>, status: u16, body: serde_json::Value)
    requires
        is_success(status),
        !acknowledged(json_of(body)),
    ensures
        tool_result(judged(method, status, body)) is Err,
        tool_result(judged(method, status, body))->Err_0.code == INTERNAL_ERROR,
        occurs_in(method, tool_result(judged(method, status, body))->Err_0.message),
        occurs_in(
            error_code(json_of(body)),
            tool_result(judged(method, status, body))->Err_0.message,
        ),
{
    lemma_refusal_names_method_and_code(method, status, body);
}

/// A reply whose status is outside the success range reaches the caller as
/// an internal error that goes by the status: it is the HTTP error, not the
/// API error, also where the body is a refusal, and its text holds the
/// status.
pub proof fn lemma_bad_status_is_reported(method: Seq<char>, status: u16, body: serde_json::Value)
    requires
        !is_success(status),
    ensures
        tool_result(judged(method, status, body)) == Err::<Seq<char>, ToolErrorView>(
            failure(ClientErrorView::Http { status, body }),
        ),
        occurs_in(
            decimal(status as nat),
            tool_result(judged(method, status, body))->Err_0.message,
        ),
{
    lemma_status_is_judged_first(method, status, body);
}

} // verus!
