use miraie::api::{encode_frame, encode_request, unwrap_reply, ApiRequest, SendMessageResponse, UnwrapStrategy};
use miraie::api::{friend_list, group_list, member_list, message_from_id, recall, resp_bot_invited_join_group_request_event, send_friend_message, send_group_message};
use miraie::chain::{MessageBlock, MessageChain};
use miraie::error::Error;
use miraie::json::Json;
use miraie::types::{Permission, QQ};
use std::sync::Arc;

fn to_json(v: serde_json::Value) -> Json {
    match v {
        serde_json::Value::Null => Json::Null,
        serde_json::Value::Bool(b) => Json::Bool(b),
        serde_json::Value::Number(n) => match n.as_i64() {
            Some(i) => Json::Int(i),
            None => Json::Number(n.to_string()),
        },
        serde_json::Value::String(s) => Json::Str(s),
        serde_json::Value::Array(a) => Json::Array(a.into_iter().map(to_json).collect()),
        serde_json::Value::Object(m) => Json::Object(m.into_iter().map(|(k, x)| (k, to_json(x))).collect()),
    }
}

fn envelope(text: &str) -> Json {
    to_json(serde_json::from_str(text).unwrap())
}

#[test]
fn frame_text_is_exact() {
    assert_eq!(
        encode_frame(11, "sendFriendMessage", None, "{}"),
        r#"{"syncId":11,"command":"sendFriendMessage","subCommand":null,"content":{}}"#
    );
    assert_eq!(
        encode_frame(-7, "a\"b", Some("sub"), "[1]"),
        r#"{"syncId":-7,"command":"a\"b","subCommand":"sub","content":[1]}"#
    );
}

fn check_round_trip<R: ApiRequest>(req: &R, command: &str, strategy: UnwrapStrategy) {
    let frame = encode_request(req, 42, "{}");
    let v: serde_json::Value = serde_json::from_str(&frame).unwrap();
    assert_eq!(v["syncId"], 42);
    assert_eq!(v["command"], command);
    assert!(v["subCommand"].is_null());
    assert_eq!(req.strategy(), strategy);
}

#[test]
fn operations_round_trip() {
    let chain = MessageChain::new().text("hi");
    let f = send_friend_message::Request { target: QQ(1), quote: None, message: chain.clone() };
    check_round_trip(&f, "sendFriendMessage", UnwrapStrategy::Flatten);
    let g = send_group_message::Request { target: QQ(2), quote: Some(3), message: chain };
    check_round_trip(&g, "sendGroupMessage", UnwrapStrategy::Flatten);
    check_round_trip(&recall::Request { message_id: 9 }, "recall", UnwrapStrategy::Default);
    check_round_trip(&friend_list::Request, "friendList", UnwrapStrategy::Data);
    check_round_trip(&group_list::Request, "groupList", UnwrapStrategy::Data);
    check_round_trip(&member_list::Request { target: QQ(5) }, "memberList", UnwrapStrategy::Data);
    check_round_trip(&message_from_id::Request { target: QQ(6) }, "messageFromId", UnwrapStrategy::Data);
    let inv = resp_bot_invited_join_group_request_event::Request {
        session_key: "k".to_string(),
        event_id: 1,
        from_id: QQ(2),
        group_id: QQ(3),
        operate: 0,
        message: String::new(),
    };
    check_round_trip(&inv, "resp_botInvitedJoinGroupRequestEvent", UnwrapStrategy::Flatten);

    // Canned replies, unwrapped by each strategy.
    let sent = unwrap_reply(envelope(r#"{"code":0,"msg":"","messageId":8}"#), UnwrapStrategy::Flatten).unwrap().unwrap();
    assert_eq!(SendMessageResponse::from_body(&sent).unwrap(), SendMessageResponse { message_id: 8 });
    let listed = unwrap_reply(envelope(r#"{"code":0,"msg":"","data":[]}"#), UnwrapStrategy::Data).unwrap().unwrap();
    assert!(matches!(listed, Json::Array(ref a) if a.is_empty()));
    assert!(unwrap_reply(envelope(r#"{"code":0,"msg":""}"#), UnwrapStrategy::Default).unwrap().is_none());
    assert!(matches!(unwrap_reply(envelope(r#"{"code":0,"msg":""}"#), UnwrapStrategy::Data), Err(Error::Format { .. })));
}

#[test]
fn non_zero_status_is_request_error() {
    match unwrap_reply(envelope(r#"{"code":5,"msg":"target not found"}"#), UnwrapStrategy::Data) {
        Err(Error::Request { code, msg }) => {
            assert_eq!(code, 5);
            assert_eq!(msg, "target not found");
        }
        other => panic!("expected a request error: {:?}", other),
    }
    assert!(matches!(unwrap_reply(envelope(r#"{"msg":""}"#), UnwrapStrategy::Data), Err(Error::Format { .. })));
    assert!(matches!(unwrap_reply(envelope(r#"{"code":0,"msg":1}"#), UnwrapStrategy::Flatten), Err(Error::Format { .. })));
    assert!(matches!(
        unwrap_reply(envelope(r#"{"code":4294967296,"msg":""}"#), UnwrapStrategy::Flatten),
        Err(Error::Format { .. })
    ));
    assert!(SendMessageResponse::from_body(&envelope("{}")).is_err());
}

#[test]
fn chain_text_skips_source_and_joins_with_spaces() {
    let quoted = MessageChain::new().text("earlier");
    let chain = MessageChain(vec![
        MessageBlock::Source { id: 4006, time: 1612848972 },
        MessageBlock::Quote { id: 1, group_id: QQ(0), sender_id: QQ(2), target_id: QQ(3), origin: Arc::new(quoted) },
        MessageBlock::text("hello"),
        MessageBlock::at(QQ(123)),
        MessageBlock::At { target: QQ(5), display: "@小马".to_string() },
        MessageBlock::Face { face_id: 0, name: "惊讶".to_string() },
        MessageBlock::AtAll,
        MessageBlock::image_url("http://x"),
    ]);
    assert_eq!(chain.to_text(), "> earlier\n hello @123 @小马 [惊讶] @全体成员 [图片]");
    assert_eq!(chain.message_id(), Some(4006));
    assert_eq!(MessageChain::new().text("x").message_id(), None);
    assert_eq!(MessageChain::new().to_text(), "");
}

#[test]
fn confirm_words() {
    assert_eq!(MessageChain::new().text("  OK ").as_confirm(), Some(true));
    assert_eq!(MessageChain::new().text("取消").as_confirm(), Some(false));
    assert_eq!(MessageChain::new().text("Yes").as_confirm(), Some(true));
    assert_eq!(MessageChain::new().text("maybe").as_confirm(), None);
}

#[test]
fn chain_builders() {
    let c = MessageChain::new()
        .text("text")
        .image_path(".", "a.jpg")
        .voice_path(".", "b.silk")
        .voice_url("http://v")
        .at(QQ(12345))
        .at_all();
    assert_eq!(c.0.len(), 6);
    assert_eq!(c.0[1], MessageBlock::image_url("file:///./images/a.jpg"));
    assert_eq!(c.0[2], MessageBlock::voice_url("file:///./voices/b.silk"));
    assert_eq!(c.0[4], MessageBlock::At { target: QQ(12345), display: String::new() });
    assert_eq!(MessageChain::from_block(MessageBlock::AtAll).0, vec![MessageBlock::AtAll]);
}

#[test]
fn permission_order() {
    assert!(Permission::Member < Permission::Administrator);
    assert!(Permission::Administrator < Permission::Owner);
    assert!(Permission::Owner > Permission::Member);
    assert_eq!(Permission::Owner.partial_cmp(&Permission::Owner), Some(std::cmp::Ordering::Equal));
}

#[test]
fn format_error_keeps_reason() {
    match Error::format("bad") {
        Error::Format { reason } => assert_eq!(reason, "bad"),
        _ => panic!(),
    }
}

#[test]
fn test_parse_from_xml() {
    let root = ".";
    let s = "hello, world";
    assert_eq!(MessageChain::from_xml(root, s), MessageChain::new().text(s));

    let s = "<v> filename.silk </v>";
    assert_eq!(MessageChain::from_xml(root, s), MessageChain::new().voice_path(root, "filename.silk"));

    let s = "prefix <v> filename.silk </v> postfix";
    assert_eq!(
        MessageChain::from_xml(root, s),
        MessageChain::new().text("prefix").voice_path(root, "filename.silk").text("postfix")
    );

    let s = "prefix <v> filename.silk </v> <image> image.jpg </image> postfix   ";
    assert_eq!(
        MessageChain::from_xml(root, s),
        MessageChain::new()
            .text("prefix")
            .voice_path(root, "filename.silk")
            .image_path(root, "image.jpg")
            .text("postfix")
    );
    let s = "prefix <v> 1.silk </v> <voice>2.silk</voice>      \n";
    assert_eq!(
        MessageChain::from_xml(root, s),
        MessageChain::new().text("prefix").voice_path(root, "1.silk").voice_path(root, "2.silk")
    );
}

#[test]
fn xml_without_end_tag_keeps_rest_as_text() {
    let c = MessageChain::from_xml("r", "a <img> x.png");
    assert_eq!(c, MessageChain::new().text("a").text("a <img> x.png"));
    let upper = MessageChain::from_xml("r", "<IMG>p.png</IMG>");
    assert_eq!(upper, MessageChain::new().image_path("r", "p.png"));
}
