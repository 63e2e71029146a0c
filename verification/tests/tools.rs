use serde_json::Value;
use slack_mcp::slack_client::SlackClient;
use slack_mcp::tools::{ApiCall, SlackTools, INVALID_PARAMS};
use slack_mcp::types::{
    AddReactionParams, CreateCanvasParams, CreateListItemParams, CreateListParams,
    DeleteListAccessParams, DeleteListItemParams, DeleteListItemsParams, GetListItemParams,
    GetThreadRepliesParams, GetUsersParams, ListChannelsParams, ListListItemsParams,
    ListMessagesParams, PostMessageParams, ReplyToMessageParams, SetListAccessParams,
    UpdateCanvasParams, UpdateListItemParams, UpdateListParams,
};

fn tools(default_channel: Option<&str>) -> SlackTools {
    SlackTools::new(
        SlackClient::new("xoxb-test".to_string()),
        default_channel.map(|c| c.to_string()),
    )
}

fn json(text: &str) -> Value {
    serde_json::from_str(text).expect("the expected body is JSON")
}

fn assert_call(call: &ApiCall, method: &str, body: &str) {
    assert_eq!(call.method, method);
    assert_eq!(call.body, json(body));
}

fn has_key(call: &ApiCall, key: &str) -> bool {
    call.body.as_object().expect("a body is an object").contains_key(key)
}

#[test]
fn post_message_without_any_channel_is_invalid_params() {
    let outcome = tools(None).post_message(PostMessageParams {
        channel: None,
        text: "hello".to_string(),
    });
    let error = outcome.expect_err("no channel resolves");
    assert_eq!(error.code, INVALID_PARAMS);
    assert_eq!(error.code, -32602);
    assert_eq!(
        error.message,
        "channel is required (or set SLACK_DEFAULT_CHANNEL env var)"
    );
}

#[test]
fn post_message_with_empty_channel_and_no_default_is_invalid_params() {
    let outcome = tools(None).post_message(PostMessageParams {
        channel: Some(String::new()),
        text: "hello".to_string(),
    });
    assert_eq!(outcome.expect_err("no channel resolves").code, -32602);
}

#[test]
fn post_message_with_empty_default_channel_is_invalid_params() {
    let outcome = tools(Some("")).post_message(PostMessageParams {
        channel: None,
        text: "hello".to_string(),
    });
    assert_eq!(outcome.expect_err("an empty default is no channel").code, -32602);
}

#[test]
fn post_message_falls_back_to_default_channel() {
    let call = tools(Some("C0DEFAULT"))
        .post_message(PostMessageParams { channel: None, text: "hello".to_string() })
        .expect("the default channel resolves");
    assert_call(&call, "chat.postMessage", r#"{"channel":"C0DEFAULT","text":"hello"}"#);
}

#[test]
fn post_message_with_empty_channel_falls_back_to_default_channel() {
    let call = tools(Some("C0DEFAULT"))
        .post_message(PostMessageParams {
            channel: Some(String::new()),
            text: "hello".to_string(),
        })
        .expect("the default channel resolves");
    assert_eq!(call.body["channel"], Value::from("C0DEFAULT"));
}

#[test]
fn post_message_prefers_the_given_channel() {
    let call = tools(Some("C0DEFAULT"))
        .post_message(PostMessageParams {
            channel: Some("C0GIVEN".to_string()),
            text: "hello".to_string(),
        })
        .expect("the given channel resolves");
    assert_call(&call, "chat.postMessage", r#"{"channel":"C0GIVEN","text":"hello"}"#);
}

#[test]
fn resolve_channel_follows_the_order_given_then_default() {
    let with_default = tools(Some("C0DEFAULT"));
    assert_eq!(with_default.resolve_channel(Some("C1".to_string())).unwrap(), "C1");
    assert_eq!(with_default.resolve_channel(Some(String::new())).unwrap(), "C0DEFAULT");
    assert_eq!(with_default.resolve_channel(None).unwrap(), "C0DEFAULT");
    let without = tools(None);
    assert_eq!(without.resolve_channel(Some("C1".to_string())).unwrap(), "C1");
    assert!(without.resolve_channel(None).is_err());
}

#[test]
fn reply_to_message_includes_broadcast_only_when_true() {
    let reply = |flag: Option<bool>| {
        tools(None).reply_to_message(ReplyToMessageParams {
            channel: "C1".to_string(),
            thread_ts: "1700000000.000100".to_string(),
            text: "reply".to_string(),
            reply_broadcast: flag,
        })
    };
    let broadcast = reply(Some(true));
    assert_call(
        &broadcast,
        "chat.postMessage",
        r#"{"channel":"C1","text":"reply","thread_ts":"1700000000.000100","reply_broadcast":true}"#,
    );
    for flag in [None, Some(false)] {
        let quiet = reply(flag);
        assert!(!has_key(&quiet, "reply_broadcast"));
        assert_call(
            &quiet,
            "chat.postMessage",
            r#"{"channel":"C1","text":"reply","thread_ts":"1700000000.000100"}"#,
        );
    }
}

#[test]
fn create_canvas_with_channel_is_channel_bound() {
    let call = tools(None).create_canvas(CreateCanvasParams {
        title: "Notes".to_string(),
        markdown: "# Hi".to_string(),
        channel_id: Some("C1".to_string()),
    });
    assert_call(
        &call,
        "conversations.canvases.create",
        r##"{"channel_id":"C1","document_content":{"type":"markdown","markdown":"# Hi"}}"##,
    );
    assert!(!has_key(&call, "title"));
}

#[test]
fn create_canvas_without_channel_is_standalone() {
    for channel_id in [None, Some(String::new())] {
        let call = tools(None).create_canvas(CreateCanvasParams {
            title: "Notes".to_string(),
            markdown: "# Hi".to_string(),
            channel_id,
        });
        assert_call(
            &call,
            "canvases.create",
            r##"{"title":"Notes","document_content":{"type":"markdown","markdown":"# Hi"}}"##,
        );
        assert!(!has_key(&call, "channel_id"));
    }
}

#[test]
fn update_canvas_sends_one_replace_change() {
    let call = tools(None).update_canvas(UpdateCanvasParams {
        canvas_id: "F1".to_string(),
        markdown: "new".to_string(),
    });
    assert_call(
        &call,
        "canvases.edit",
        r#"{"canvas_id":"F1","changes":[{"operation":"replace","document_content":{"type":"markdown","markdown":"new"}}]}"#,
    );
    assert_eq!(call.body["changes"].as_array().map(|a| a.len()), Some(1));
}

#[test]
fn list_channels_omits_absent_fields() {
    let call = tools(None).list_channels(ListChannelsParams {
        limit: None,
        cursor: None,
        types: None,
    });
    assert_call(&call, "conversations.list", "{}");
    assert_eq!(call.body.to_string(), "{}");
}

#[test]
fn list_channels_passes_fields_through() {
    let call = tools(None).list_channels(ListChannelsParams {
        limit: Some(50),
        cursor: Some("dXNlcjpVMDYx".to_string()),
        types: Some("public_channel,im".to_string()),
    });
    assert_call(
        &call,
        "conversations.list",
        r#"{"limit":50,"cursor":"dXNlcjpVMDYx","types":"public_channel,im"}"#,
    );
}

#[test]
fn list_channels_keeps_each_field_apart() {
    let only_types = tools(None).list_channels(ListChannelsParams {
        limit: None,
        cursor: None,
        types: Some(String::new()),
    });
    assert_call(&only_types, "conversations.list", r#"{"types":""}"#);
    let only_limit = tools(None).list_channels(ListChannelsParams {
        limit: Some(0),
        cursor: None,
        types: None,
    });
    assert_call(&only_limit, "conversations.list", r#"{"limit":0}"#);
    assert!(!has_key(&only_limit, "cursor"));
    assert!(!has_key(&only_limit, "types"));
}

#[test]
fn list_messages_builds_history_call() {
    let bare = tools(None).list_messages(ListMessagesParams {
        channel: "C1".to_string(),
        limit: None,
        cursor: None,
    });
    assert_call(&bare, "conversations.history", r#"{"channel":"C1"}"#);
    let full = tools(None).list_messages(ListMessagesParams {
        channel: "C1".to_string(),
        limit: Some(4294967295),
        cursor: Some("next".to_string()),
    });
    assert_call(
        &full,
        "conversations.history",
        r#"{"channel":"C1","limit":4294967295,"cursor":"next"}"#,
    );
}

#[test]
fn get_thread_replies_builds_replies_call() {
    let bare = tools(None).get_thread_replies(GetThreadRepliesParams {
        channel: "C1".to_string(),
        ts: "1.2".to_string(),
        limit: None,
        cursor: None,
    });
    assert_call(&bare, "conversations.replies", r#"{"channel":"C1","ts":"1.2"}"#);
    let full = tools(None).get_thread_replies(GetThreadRepliesParams {
        channel: "C1".to_string(),
        ts: "1.2".to_string(),
        limit: Some(10),
        cursor: Some("c".to_string()),
    });
    assert_call(
        &full,
        "conversations.replies",
        r#"{"channel":"C1","ts":"1.2","limit":10,"cursor":"c"}"#,
    );
}

#[test]
fn add_reaction_builds_reaction_call() {
    let call = tools(None).add_reaction(AddReactionParams {
        channel: "C1".to_string(),
        timestamp: "1.2".to_string(),
        name: "thumbsup".to_string(),
    });
    assert_call(
        &call,
        "reactions.add",
        r#"{"channel":"C1","timestamp":"1.2","name":"thumbsup"}"#,
    );
}

#[test]
fn get_users_builds_users_call() {
    let bare = tools(None).get_users(GetUsersParams { limit: None, cursor: None });
    assert_call(&bare, "users.list", "{}");
    let full = tools(None).get_users(GetUsersParams {
        limit: Some(200),
        cursor: Some("c".to_string()),
    });
    assert_call(&full, "users.list", r#"{"limit":200,"cursor":"c"}"#);
}

#[test]
fn create_list_passes_schema_through() {
    let bare = tools(None).create_list(CreateListParams {
        name: "Tasks".to_string(),
        description: "things".to_string(),
        todo_mode: None,
        schema: None,
    });
    assert_call(&bare, "lists.create", r#"{"name":"Tasks","description":"things"}"#);
    let schema = r#"{"Col1":{"type":"text","options":[1,2.5,null,{"deep":[true]}]}}"#;
    let full = tools(None).create_list(CreateListParams {
        name: "Tasks".to_string(),
        description: "things".to_string(),
        todo_mode: Some(false),
        schema: Some(json(schema)),
    });
    assert_eq!(full.method, "lists.create");
    assert_eq!(full.body["todo_mode"], Value::from(false));
    assert_eq!(full.body["schema"], json(schema));
    assert_eq!(full.body.as_object().map(|o| o.len()), Some(4));
}

#[test]
fn update_list_sends_only_what_is_given() {
    let bare = tools(None).update_list(UpdateListParams {
        id: "L1".to_string(),
        name: None,
        description: None,
        todo_mode: None,
    });
    assert_call(&bare, "lists.update", r#"{"id":"L1"}"#);
    let some = tools(None).update_list(UpdateListParams {
        id: "L1".to_string(),
        name: None,
        description: Some("d".to_string()),
        todo_mode: Some(true),
    });
    assert_call(&some, "lists.update", r#"{"id":"L1","description":"d","todo_mode":true}"#);
    let full = tools(None).update_list(UpdateListParams {
        id: "L1".to_string(),
        name: Some("n".to_string()),
        description: Some("d".to_string()),
        todo_mode: Some(false),
    });
    assert_call(
        &full,
        "lists.update",
        r#"{"id":"L1","name":"n","description":"d","todo_mode":false}"#,
    );
}

#[test]
fn create_list_item_passes_initial_fields_through() {
    let bare = tools(None).create_list_item(CreateListItemParams {
        list_id: "L1".to_string(),
        initial_fields: None,
    });
    assert_call(&bare, "lists.items.create", r#"{"list_id":"L1"}"#);
    let full = tools(None).create_list_item(CreateListItemParams {
        list_id: "L1".to_string(),
        initial_fields: Some(json(r#"{"Col1":"x"}"#)),
    });
    assert_call(
        &full,
        "lists.items.create",
        r#"{"list_id":"L1","initial_fields":{"Col1":"x"}}"#,
    );
}

#[test]
fn create_list_item_passes_an_explicit_null_through() {
    let call = tools(None).create_list_item(CreateListItemParams {
        list_id: "L1".to_string(),
        initial_fields: Some(Value::Null),
    });
    assert!(has_key(&call, "initial_fields"));
    assert_call(&call, "lists.items.create", r#"{"list_id":"L1","initial_fields":null}"#);
}

#[test]
fn list_list_items_builds_items_call() {
    let bare = tools(None).list_list_items(ListListItemsParams {
        list_id: "L1".to_string(),
        limit: None,
        cursor: None,
        archived: None,
    });
    assert_call(&bare, "lists.items.list", r#"{"list_id":"L1"}"#);
    let full = tools(None).list_list_items(ListListItemsParams {
        list_id: "L1".to_string(),
        limit: Some(5),
        cursor: Some("c".to_string()),
        archived: Some(false),
    });
    assert_call(
        &full,
        "lists.items.list",
        r#"{"list_id":"L1","limit":5,"cursor":"c","archived":false}"#,
    );
}

#[test]
fn get_list_item_builds_info_call() {
    let call = tools(None).get_list_item(GetListItemParams {
        list_id: "L1".to_string(),
        id: "I1".to_string(),
    });
    assert_call(&call, "lists.items.info", r#"{"list_id":"L1","id":"I1"}"#);
}

#[test]
fn update_list_item_passes_cells_through() {
    let call = tools(None).update_list_item(UpdateListItemParams {
        list_id: "L1".to_string(),
        cells: json(r#"[{"row_id":"R1","column_id":"C1","text":"x"}]"#),
    });
    assert_call(
        &call,
        "lists.items.update",
        r#"{"list_id":"L1","cells":[{"row_id":"R1","column_id":"C1","text":"x"}]}"#,
    );
}

#[test]
fn delete_list_item_builds_delete_call() {
    let call = tools(None).delete_list_item(DeleteListItemParams {
        list_id: "L1".to_string(),
        id: "I1".to_string(),
    });
    assert_call(&call, "lists.items.delete", r#"{"list_id":"L1","id":"I1"}"#);
}

#[test]
fn delete_list_items_passes_ids_through() {
    let call = tools(None).delete_list_items(DeleteListItemsParams {
        list_id: "L1".to_string(),
        ids: json(r#"["I1","I2"]"#),
    });
    assert_call(
        &call,
        "lists.items.deleteMultiple",
        r#"{"list_id":"L1","ids":["I1","I2"]}"#,
    );
}

#[test]
fn set_list_access_builds_access_call() {
    let bare = tools(None).set_list_access(SetListAccessParams {
        list_id: "L1".to_string(),
        access_level: "read".to_string(),
        channel_ids: None,
        user_ids: None,
    });
    assert_call(&bare, "lists.access.set", r#"{"list_id":"L1","access_level":"read"}"#);
    let full = tools(None).set_list_access(SetListAccessParams {
        list_id: "L1".to_string(),
        access_level: "write".to_string(),
        channel_ids: Some(json(r#"["C1"]"#)),
        user_ids: Some(json(r#"["U1","U2"]"#)),
    });
    assert_call(
        &full,
        "lists.access.set",
        r#"{"list_id":"L1","access_level":"write","channel_ids":["C1"],"user_ids":["U1","U2"]}"#,
    );
}

#[test]
fn delete_list_access_builds_access_call() {
    let bare = tools(None).delete_list_access(DeleteListAccessParams {
        list_id: "L1".to_string(),
        channel_ids: None,
        user_ids: None,
    });
    assert_call(&bare, "lists.access.delete", r#"{"list_id":"L1"}"#);
    let users = tools(None).delete_list_access(DeleteListAccessParams {
        list_id: "L1".to_string(),
        channel_ids: None,
        user_ids: Some(json(r#"["U1"]"#)),
    });
    assert_call(&users, "lists.access.delete", r#"{"list_id":"L1","user_ids":["U1"]}"#);
    assert!(!has_key(&users, "channel_ids"));
}

#[test]
fn tools_keep_their_client() {
    let tools = tools(None);
    let call = tools.add_reaction(AddReactionParams {
        channel: "C1".to_string(),
        timestamp: "1.2".to_string(),
        name: "eyes".to_string(),
    });
    let request = tools.client().post(&call.method, &call.body);
    assert_eq!(request.url, "https://slack.com/api/reactions.add");
    assert_eq!(request.authorization, "Bearer xoxb-test");
    assert_eq!(request.body, r#"{"channel":"C1","name":"eyes","timestamp":"1.2"}"#);
}
