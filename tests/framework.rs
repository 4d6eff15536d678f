use miraie::chain::{MessageBlock, MessageChain};
use miraie::dispatch::{
    effect_of, invocation_plan, reply_target, App, Effect, FromRequest, HandlerResult, ReplyTarget, Request,
};
use miraie::events::{BotOnlineEvent, Event};
use miraie::message::{FriendMessage, GroupMessage, Message, TempMessage};
use miraie::types::{FriendMember, Group, GroupMember, Permission, QQ};

#[derive(Clone)]
struct Bus;

impl App for Bus {
    type Message = Message;
}

fn group() -> Group {
    Group { id: QQ(555), name: "g".to_string(), permission: Permission::Member }
}

fn member() -> GroupMember {
    GroupMember {
        id: QQ(42),
        member_name: "m".to_string(),
        special_title: String::new(),
        permission: Permission::Administrator,
        join: Some(1612848972),
        last_speak: None,
        group: group(),
    }
}

fn group_message(text: &str) -> Message {
    Message::Group(GroupMessage {
        sender: member(),
        message: MessageChain(vec![MessageBlock::Source { id: 77, time: 1612848972 }, MessageBlock::text(text)]),
    })
}

fn friend_message() -> Message {
    Message::Friend(FriendMessage {
        sender: FriendMember { id: QQ(123456), nickname: "小马".to_string(), remark: String::new() },
        message: MessageChain(vec![MessageBlock::text("z？")]),
    })
}

#[test]
fn group_frame_fires_group_handlers_only() {
    let req = Request { app: Bus, message: group_message("hi") };
    assert!(GroupMessage::from_request(&req).is_some());
    assert!(FriendMessage::from_request(&req).is_none());
    assert!(Message::from_request(&req).is_some());
    let applies = vec![
        GroupMessage::from_request(&req).is_some(),
        FriendMessage::from_request(&req).is_some(),
        <(GroupMessage, Message)>::from_request(&req).is_some(),
        <(Message, FriendMessage)>::from_request(&req).is_some(),
        <()>::from_request(&req).is_some(),
    ];
    assert_eq!(applies, vec![true, false, true, false, true]);
    assert_eq!(invocation_plan(&applies), vec![0, 2, 4]);
}

#[test]
fn plan_invokes_each_applicable_handler_once() {
    assert_eq!(invocation_plan(&vec![true, true, false, true]), vec![0, 1, 3]);
    assert!(invocation_plan(&vec![false, false]).is_empty());
    assert!(invocation_plan(&vec![]).is_empty());
}

#[test]
fn event_extractors_match_their_variant() {
    let req = Request { app: Bus, message: Message::Event(Event::BotOnlineEvent(BotOnlineEvent { qq: QQ(123) })) };
    assert_eq!(BotOnlineEvent::from_request(&req), Some(BotOnlineEvent { qq: QQ(123) }));
    assert!(Event::from_request(&req).is_some());
    assert!(GroupMessage::from_request(&req).is_none());
    assert!(TempMessage::from_request(&req).is_none());
}

#[test]
fn extraction_of_ten_inputs_is_conjunctive() {
    let req = Request { app: Bus, message: group_message("x") };
    type Ten = (Message, Message, Message, Message, Message, Message, Message, Message, Message, GroupMessage);
    assert!(<Ten>::from_request(&req).is_some());
    type Bad = (Message, Message, Message, Message, Message, Message, Message, Message, Message, FriendMessage);
    assert!(<Bad>::from_request(&req).is_none());
}

#[test]
fn return_protocol_effects() {
    let g = group_message("hi");
    let f = friend_message();
    let ev = Message::Event(Event::BotOnlineEvent(BotOnlineEvent { qq: QQ(1) }));
    assert!(matches!(effect_of(HandlerResult::<String>::unit(), &g), Effect::Nothing));
    assert!(matches!(effect_of(HandlerResult::<String>::from_option(None), &g), Effect::Nothing));
    match effect_of(HandlerResult::from_result(Err::<String, String>("boom".to_string())), &g) {
        Effect::Warn(e) => assert_eq!(e, "boom"),
        _ => panic!("expected a warning"),
    }
    match effect_of(HandlerResult::from_option(Some("pong".to_string())), &g) {
        Effect::Reply(t, c) => {
            assert_eq!(t, ReplyTarget::Group { target: QQ(555), quote: Some(77) });
            assert_eq!(c, "pong");
        }
        _ => panic!("expected a reply"),
    }
    match effect_of(HandlerResult::from_result_option(Ok(Some(1u8))), &f) {
        Effect::Reply(t, c) => {
            assert_eq!(t, ReplyTarget::Friend { target: QQ(123456), quote: None });
            assert_eq!(c, 1);
        }
        _ => panic!("expected a reply"),
    }
    assert!(matches!(effect_of(HandlerResult::from_result_option(Ok(None::<u8>)), &f), Effect::Nothing));
    assert!(matches!(
        effect_of(HandlerResult::<u8>::from_result_option(Err("e".to_string())), &f),
        Effect::Warn(_)
    ));
    assert!(matches!(effect_of(HandlerResult::<u8>::from_unit_result(Ok(())), &f), Effect::Nothing));
    assert!(matches!(effect_of(HandlerResult::from_option(Some(3u8)), &ev), Effect::NoReplyTarget));
    assert_eq!(reply_target(&ev), None);
}
