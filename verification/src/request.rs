//! A tool request: one of the operations, with its parameters. The set of
//! operations is closed, and each maps to one method of the Slack Web API.

use crate::json::{json_of, Json};
use crate::tools::{channel_required, resolved_channel, text_view, ApiCall, SlackTools, ToolError};
use crate::types::{
    lemma_member_names_differ, AddReactionParams, CreateCanvasParams, CreateListItemParams, CreateListParams,
    DeleteListAccessParams, DeleteListItemParams, DeleteListItemsParams, GetListItemParams,
    GetThreadRepliesParams, GetUsersParams, ListChannelsParams, ListListItemsParams,
    ListMessagesParams, PostMessageParams, ReplyToMessageParams, SetListAccessParams,
    UpdateCanvasParams, UpdateListItemParams, UpdateListParams,
};
use vstd::prelude::*;

verus! {

/// An invocation of one of the tools.
#[derive(Debug)]
pub enum ToolRequest {
    PostMessage(PostMessageParams),
    ReplyToMessage(ReplyToMessageParams),
    CreateCanvas(CreateCanvasParams),
    UpdateCanvas(UpdateCanvasParams),
    ListChannels(ListChannelsParams),
    ListMessages(ListMessagesParams),
    GetThreadReplies(GetThreadRepliesParams),
    AddReaction(AddReactionParams),
    GetUsers(GetUsersParams),
    CreateList(CreateListParams),
    UpdateList(UpdateListParams),
    CreateListItem(CreateListItemParams),
    ListListItems(ListListItemsParams),
    GetListItem(GetListItemParams),
    UpdateListItem(UpdateListItemParams),
    DeleteListItem(DeleteListItemParams),
    DeleteListItems(DeleteListItemsParams),
    SetListAccess(SetListAccessParams),
    DeleteListAccess(DeleteListAccessParams),
}

impl ToolRequest {
    /// The name under which the tool is offered.
    pub open spec fn tool(self) -> Seq<char> {
        match self {
            ToolRequest::PostMessage(_) => "post_message"@,
            ToolRequest::ReplyToMessage(_) => "reply_to_message"@,
            ToolRequest::CreateCanvas(_) => "create_canvas"@,
            ToolRequest::UpdateCanvas(_) => "update_canvas"@,
            ToolRequest::ListChannels(_) => "list_channels"@,
            ToolRequest::ListMessages(_) => "list_messages"@,
            ToolRequest::GetThreadReplies(_) => "get_thread_replies"@,
            ToolRequest::AddReaction(_) => "add_reaction"@,
            ToolRequest::GetUsers(_) => "get_users"@,
            ToolRequest::CreateList(_) => "create_list"@,
            ToolRequest::UpdateList(_) => "update_list"@,
            ToolRequest::CreateListItem(_) => "create_list_item"@,
            ToolRequest::ListListItems(_) => "list_list_items"@,
            ToolRequest::GetListItem(_) => "get_list_item"@,
            ToolRequest::UpdateListItem(_) => "update_list_item"@,
            ToolRequest::DeleteListItem(_) => "delete_list_item"@,
            ToolRequest::DeleteListItems(_) => "delete_list_items"@,
            ToolRequest::SetListAccess(_) => "set_list_access"@,
            ToolRequest::DeleteListAccess(_) => "delete_list_access"@,
        }
    }

    /// The method of the Slack Web API that the tool calls.
    pub open spec fn method(self) -> Seq<char> {
        match self {
            ToolRequest::PostMessage(_) => "chat.postMessage"@,
            ToolRequest::ReplyToMessage(_) => "chat.postMessage"@,
            ToolRequest::CreateCanvas(p) => p.method(),
            ToolRequest::UpdateCanvas(_) => "canvases.edit"@,
            ToolRequest::ListChannels(_) => "conversations.list"@,
            ToolRequest::ListMessages(_) => "conversations.history"@,
            ToolRequest::GetThreadReplies(_) => "conversations.replies"@,
            ToolRequest::AddReaction(_) => "reactions.add"@,
            ToolRequest::GetUsers(_) => "users.list"@,
            ToolRequest::CreateList(_) => "lists.create"@,
            ToolRequest::UpdateList(_) => "lists.update"@,
            ToolRequest::CreateListItem(_) => "lists.items.create"@,
            ToolRequest::ListListItems(_) => "lists.items.list"@,
            ToolRequest::GetListItem(_) => "lists.items.info"@,
            ToolRequest::UpdateListItem(_) => "lists.items.update"@,
            ToolRequest::DeleteListItem(_) => "lists.items.delete"@,
            ToolRequest::DeleteListItems(_) => "lists.items.deleteMultiple"@,
            ToolRequest::SetListAccess(_) => "lists.access.set"@,
            ToolRequest::DeleteListAccess(_) => "lists.access.delete"@,
        }
    }

    /// The body that the tool sends, given the default channel. A message
    /// for which no channel resolves has none; every other request has one.
    pub open spec fn payload(self, default_channel: Option<Seq<char>>) -> Option<Json> {
        match self {
            ToolRequest::PostMessage(p) => match resolved_channel(
                text_view(p.channel),
                default_channel,
            ) {
                Some(channel) => Some(p.payload(channel)),
                None => None,
            },
            ToolRequest::ReplyToMessage(p) => Some(p.payload()),
            ToolRequest::CreateCanvas(p) => Some(p.payload()),
            ToolRequest::UpdateCanvas(p) => Some(p.payload()),
            ToolRequest::ListChannels(p) => Some(p.payload()),
            ToolRequest::ListMessages(p) => Some(p.payload()),
            ToolRequest::GetThreadReplies(p) => Some(p.payload()),
            ToolRequest::AddReaction(p) => Some(p.payload()),
            ToolRequest::GetUsers(p) => Some(p.payload()),
            ToolRequest::CreateList(p) => Some(p.payload()),
            ToolRequest::UpdateList(p) => Some(p.payload()),
            ToolRequest::CreateListItem(p) => Some(p.payload()),
            ToolRequest::ListListItems(p) => Some(p.payload()),
            ToolRequest::GetListItem(p) => Some(p.payload()),
            ToolRequest::UpdateListItem(p) => Some(p.payload()),
            ToolRequest::DeleteListItem(p) => Some(p.payload()),
            ToolRequest::DeleteListItems(p) => Some(p.payload()),
            ToolRequest::SetListAccess(p) => Some(p.payload()),
            ToolRequest::DeleteListAccess(p) => Some(p.payload()),
        }
    }

    /// The name under which the tool is offered.
    pub fn name(&self) -> (name: &'static str)
        ensures
            name@ == self.tool(),
    {
        match self {
            ToolRequest::PostMessage(_) => "post_message",
            ToolRequest::ReplyToMessage(_) => "reply_to_message",
            ToolRequest::CreateCanvas(_) => "create_canvas",
            ToolRequest::UpdateCanvas(_) => "update_canvas",
            ToolRequest::ListChannels(_) => "list_channels",
            ToolRequest::ListMessages(_) => "list_messages",
            ToolRequest::GetThreadReplies(_) => "get_thread_replies",
            ToolRequest::AddReaction(_) => "add_reaction",
            ToolRequest::GetUsers(_) => "get_users",
            ToolRequest::CreateList(_) => "create_list",
            ToolRequest::UpdateList(_) => "update_list",
            ToolRequest::CreateListItem(_) => "create_list_item",
            ToolRequest::ListListItems(_) => "list_list_items",
            ToolRequest::GetListItem(_) => "get_list_item",
            ToolRequest::UpdateListItem(_) => "update_list_item",
            ToolRequest::DeleteListItem(_) => "delete_list_item",
            ToolRequest::DeleteListItems(_) => "delete_list_items",
            ToolRequest::SetListAccess(_) => "set_list_access",
            ToolRequest::DeleteListAccess(_) => "delete_list_access",
        }
    }
}

impl SlackTools {
    /// The one API call that a request stands for. Only a message for which
    /// no channel resolves has none: that request is refused here, and
    /// nothing is to be sent for it.
    pub fn prepare(&self, request: ToolRequest) -> (outcome: Result<ApiCall, ToolError>)
        ensures
            match outcome {
                Ok(call) => call.method@ == request.method() && request.payload(
                    self@.default_channel,
                ) == Some(json_of(call.body)),
                Err(e) => request.payload(self@.default_channel) is None && e@
                    == channel_required(),
            },
    {
        match request {
            ToolRequest::PostMessage(p) => self.post_message(p),
            ToolRequest::ReplyToMessage(p) => Ok(self.reply_to_message(p)),
            ToolRequest::CreateCanvas(p) => Ok(self.create_canvas(p)),
            ToolRequest::UpdateCanvas(p) => Ok(self.update_canvas(p)),
            ToolRequest::ListChannels(p) => Ok(self.list_channels(p)),
            ToolRequest::ListMessages(p) => Ok(self.list_messages(p)),
            ToolRequest::GetThreadReplies(p) => Ok(self.get_thread_replies(p)),
            ToolRequest::AddReaction(p) => Ok(self.add_reaction(p)),
            ToolRequest::GetUsers(p) => Ok(self.get_users(p)),
            ToolRequest::CreateList(p) => Ok(self.create_list(p)),
            ToolRequest::UpdateList(p) => Ok(self.update_list(p)),
            ToolRequest::CreateListItem(p) => Ok(self.create_list_item(p)),
            ToolRequest::ListListItems(p) => Ok(self.list_list_items(p)),
            ToolRequest::GetListItem(p) => Ok(self.get_list_item(p)),
            ToolRequest::UpdateListItem(p) => Ok(self.update_list_item(p)),
            ToolRequest::DeleteListItem(p) => Ok(self.delete_list_item(p)),
            ToolRequest::DeleteListItems(p) => Ok(self.delete_list_items(p)),
            ToolRequest::SetListAccess(p) => Ok(self.set_list_access(p)),
            ToolRequest::DeleteListAccess(p) => Ok(self.delete_list_access(p)),
        }
    }
}

/// A member of the body that stands for an optional field is there exactly
/// where the field was supplied: an omitted field is never sent as null or
/// empty. (The broadcast flag of a reply counts as supplied only where it is
/// true; the channel of a canvas only where it is not empty, and the title
/// is sent in its place.)
pub proof fn lemma_omitted_fields_are_not_members(
    request: ToolRequest,
    default_channel: Option<Seq<char>>,
)
    ensures
        request.payload(default_channel) matches Some(body) ==> (
            match request {
                ToolRequest::ReplyToMessage(p) => body.has("reply_broadcast"@)
                    <==> p.reply_broadcast == Some(true),
                ToolRequest::CreateCanvas(p) => {
                    &&& body.has("channel_id"@) <==> p.channel_bound()
                    &&& body.has("title"@) <==> !p.channel_bound()
                },
                ToolRequest::ListChannels(p) => {
                    &&& body.has("limit"@) <==> p.limit is Some
                    &&& body.has("cursor"@) <==> p.cursor is Some
                    &&& body.has("types"@) <==> p.types is Some
                },
                ToolRequest::ListMessages(p) => {
                    &&& body.has("limit"@) <==> p.limit is Some
                    &&& body.has("cursor"@) <==> p.cursor is Some
                },
                ToolRequest::GetThreadReplies(p) => {
                    &&& body.has("limit"@) <==> p.limit is Some
                    &&& body.has("cursor"@) <==> p.cursor is Some
                },
                ToolRequest::GetUsers(p) => {
                    &&& body.has("limit"@) <==> p.limit is Some
                    &&& body.has("cursor"@) <==> p.cursor is Some
                },
                ToolRequest::CreateList(p) => {
                    &&& body.has("todo_mode"@) <==> p.todo_mode is Some
                    &&& body.has("schema"@) <==> p.schema is Some
                },
                ToolRequest::UpdateList(p) => {
                    &&& body.has("name"@) <==> p.name is Some
                    &&& body.has("description"@) <==> p.description is Some
                    &&& body.has("todo_mode"@) <==> p.todo_mode is Some
                },
                ToolRequest::CreateListItem(p) => body.has("initial_fields"@)
                    <==> p.initial_fields is Some,
                ToolRequest::ListListItems(p) => {
                    &&& body.has("limit"@) <==> p.limit is Some
                    &&& body.has("cursor"@) <==> p.cursor is Some
                    &&& body.has("archived"@) <==> p.archived is Some
                },
                ToolRequest::SetListAccess(p) => {
                    &&& body.has("channel_ids"@) <==> p.channel_ids is Some
                    &&& body.has("user_ids"@) <==> p.user_ids is Some
                },
                ToolRequest::DeleteListAccess(p) => {
                    &&& body.has("channel_ids"@) <==> p.channel_ids is Some
                    &&& body.has("user_ids"@) <==> p.user_ids is Some
                },
                _ => true,
            }
        ),
{
    lemma_member_names_differ();
}

/// A request is refused exactly where it is a message and neither the
/// channel it names nor the default channel is a channel.
pub proof fn lemma_only_a_message_without_channel_is_refused(
    request: ToolRequest,
    default_channel: Option<Seq<char>>,
)
    ensures
        request.payload(default_channel) is None <==> request is PostMessage && resolved_channel(
            text_view(request->PostMessage_0.channel),
            default_channel,
        ) is None,
{
}

/// A message that names no channel goes to the default channel, where there
/// is one.
pub proof fn lemma_message_falls_back_to_default_channel(
    params: PostMessageParams,
    default_channel: Seq<char>,
)
    requires
        params.channel is None || params.channel->0@.len() == 0,
        default_channel.len() > 0,
    ensures
        ToolRequest::PostMessage(params).payload(Some(default_channel)) == Some(
            params.payload(default_channel),
        ),
        params.payload(default_channel).member("channel"@) == Json::Text(default_channel),
{
    lemma_member_names_differ();
}

} // verus!
