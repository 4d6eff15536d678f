use miraie::chain::{MessageBlock, MessageChain};
use miraie::events::{BotOnlineEvent, Event};
use miraie::keyword::KeywordCommandHandlers;
use miraie::message::{FriendMessage, Message};
use miraie::types::{FriendMember, QQ};

fn friend_text(text: &str) -> Message {
    Message::Friend(FriendMessage {
        sender: FriendMember { id: QQ(1), nickname: "a".to_string(), remark: String::new() },
        message: MessageChain(vec![MessageBlock::Source { id: 9, time: 0 }, MessageBlock::text(text)]),
    })
}

#[test]
fn overlapping_prefixes_fire_by_prefix_test() {
    let mut table = KeywordCommandHandlers::new();
    table.command("ping".to_string(), "short");
    table.command("ping-pong".to_string(), "long");
    // "pingpong" begins with "ping" only.
    assert_eq!(table.matching("pingpong"), vec![0]);
    // A text that begins with both prefixes fires both handlers.
    assert_eq!(table.matching("ping-pong!"), vec![0, 1]);
    assert_eq!(*table.handler(1), "long");
}

#[test]
fn handler_fires_iff_text_starts_with_prefix() {
    let mut table = KeywordCommandHandlers::new();
    table.command("在吗".to_string(), 0u8);
    table.command("help".to_string(), 1u8);
    table.command("".to_string(), 2u8);
    assert_eq!(table.matching("在吗？"), vec![0, 2]);
    assert_eq!(table.matching("hel"), vec![2]);
    assert_eq!(table.matching("say help"), vec![2]);
    assert_eq!(table.len(), 3);
}

#[test]
fn events_never_match_keywords() {
    let mut table = KeywordCommandHandlers::new();
    table.command("".to_string(), ());
    let ev = Message::Event(Event::BotOnlineEvent(BotOnlineEvent { qq: QQ(123) }));
    assert!(table.targets(&ev).is_empty());
    assert_eq!(table.targets(&friend_text("ping")), vec![0]);
}
