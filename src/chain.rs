//! Message chains: the blocks a message is made of, and the text it reads as.

use vstd::prelude::*;
use vstd::string::*;
use std::sync::Arc;
use crate::json::{decimal_digits, u64_text, text_eq};
use crate::types::QQ;

verus! {

/// One block of a message.
#[derive(Debug, Clone, PartialEq, Eq)]
pub enum MessageBlock {
    /// The identity of a received message; always its first block.
    Source {
        /// The message id, used to quote the message in a reply.
        id: i64,
        /// When the message was sent, in seconds since the Unix epoch.
        time: i64,
    },
    /// A quoted earlier message.
    Quote {
        id: i64,
        /// The group the quoted message was sent in; 0 for a private message.
        group_id: QQ,
        sender_id: QQ,
        target_id: QQ,
        origin: Arc<MessageChain>,
    },
    /// A mention of one member.
    At {
        target: QQ,
        /// The text shown for the mention; empty when sending.
        display: String,
    },
    /// A mention of everyone.
    AtAll,
    /// A face emoticon.
    Face { face_id: i32, name: String },
    /// Plain text.
    Text { text: String },
    /// An image, by id, url or base64 content.
    Image { image_id: String, url: String, base64: Option<String> },
    /// An image that can be seen once.
    FlushImage { image_id: String, url: String, base64: Option<String> },
    /// A voice clip.
    Voice { voice_id: Option<String>, url: Option<String>, base64: Option<String> },
    /// An XML card.
    Xml { xml: String },
    /// A file.
    File { id: String, name: String, size: usize },
}

/// A message: a sequence of blocks.
#[derive(Debug, Clone, PartialEq, Eq)]
pub struct MessageChain(pub Vec<MessageBlock>);

/// The text a block reads as.
pub open spec fn block_text(b: MessageBlock) -> Seq<char>
    decreases b,
{
    match b {
        MessageBlock::Source { .. } => seq![],
        MessageBlock::Quote { origin, .. } => "> "@ + blocks_text(origin.0@) + "\n"@,
        MessageBlock::At { target, display } => {
            if display@.len() == 0 {
                "@"@ + decimal_digits(target.0 as nat)
            } else {
                display@
            }
        },
        MessageBlock::AtAll => "@全体成员"@,
        MessageBlock::Face { name, .. } => "["@ + name@ + "]"@,
        MessageBlock::Text { text } => text@,
        MessageBlock::Image { .. } => "[图片]"@,
        MessageBlock::FlushImage { .. } => "[闪照]"@,
        MessageBlock::Voice { .. } => "[语音消息]"@,
        MessageBlock::Xml { .. } => "[XML消息]"@,
        MessageBlock::File { .. } => "[文件消息]"@,
    }
}

/// Whether some block of `bs` is shown, that is, is not a source block.
pub open spec fn any_shown(bs: Seq<MessageBlock>) -> bool {
    exists|i: int| 0 <= i < bs.len() && !(#[trigger] bs[i] is Source)
}

/// The text of a sequence of blocks: the texts of the blocks other than
/// source blocks, in order, separated by single spaces.
pub open spec fn blocks_text(bs: Seq<MessageBlock>) -> Seq<char>
    decreases bs,
{
    if bs.len() == 0 {
        seq![]
    } else {
        let prev = blocks_text(bs.drop_last());
        let b = bs.last();
        if b is Source {
            prev
        } else if any_shown(bs.drop_last()) {
            prev + " "@ + block_text(b)
        } else {
            block_text(b)
        }
    }
}

proof fn lemma_none_shown(bs: Seq<MessageBlock>)
    requires
        !any_shown(bs),
    ensures
        blocks_text(bs) == Seq::<char>::empty(),
    decreases bs.len(),
{
    if bs.len() > 0 {
        let pre = bs.drop_last();
        if any_shown(pre) {
            let j = choose|j: int| 0 <= j < pre.len() && !(#[trigger] pre[j] is Source);
            assert(bs[j] == pre[j]);
        }
        lemma_none_shown(pre);
        assert(bs[bs.len() - 1] is Source);
    }
}

/// The text that a block reads as.
fn block_to_text(b: &MessageBlock) -> (r: String)
    ensures
        r@ == block_text(*b),
    decreases b,
{
    match b {
        MessageBlock::Source { .. } => String::new(),
        MessageBlock::Quote { origin, .. } => {
            let mut s = String::from_str("> ");
            let inner = blocks_to_text(&origin.0);
            s.append(inner.as_str());
            s.append("\n");
            s
        },
        MessageBlock::At { target, display } => {
            if display.unicode_len() == 0 {
                let mut s = String::from_str("@");
                let n = u64_text(target.0);
                s.append(n.as_str());
                s
            } else {
                display.clone()
            }
        },
        MessageBlock::AtAll => String::from_str("@全体成员"),
        MessageBlock::Face { name, .. } => {
            let mut s = String::from_str("[");
            s.append(name.as_str());
            s.append("]");
            s
        },
        MessageBlock::Text { text } => text.clone(),
        MessageBlock::Image { .. } => String::from_str("[图片]"),
        MessageBlock::FlushImage { .. } => String::from_str("[闪照]"),
        MessageBlock::Voice { .. } => String::from_str("[语音消息]"),
        MessageBlock::Xml { .. } => String::from_str("[XML消息]"),
        MessageBlock::File { .. } => String::from_str("[文件消息]"),
    }
}

/// The text that a sequence of blocks reads as.
fn blocks_to_text(bs: &Vec<MessageBlock>) -> (r: String)
    ensures
        r@ == blocks_text(bs@),
    decreases bs@,
{
    let mut out = String::new();
    let mut shown = false;
    let mut i: usize = 0;
    assert(bs@.subrange(0, 0) =~= Seq::<MessageBlock>::empty());
    while i < bs.len()
        invariant
            i <= bs@.len(),
            out@ == blocks_text(bs@.subrange(0, i as int)),
            shown == any_shown(bs@.subrange(0, i as int)),
        decreases bs@.len() - i,
    {
        let ghost pre = bs@.subrange(0, i as int);
        let ghost cur = bs@.subrange(0, i + 1);
        assert(cur.drop_last() =~= pre);
        assert(cur.last() == bs@[i as int]);
        let b = &bs[i];
        let is_source = match b {
            MessageBlock::Source { .. } => true,
            _ => false,
        };
        assert(is_source == (bs@[i as int] is Source));
        let ghost out0 = out@;
        if !is_source {
            let t = block_to_text(b);
            if shown {
                out.append(" ");
                assert(out@ == out0 + " "@);
            }
            out.append(t.as_str());
            shown = true;
            assert(cur[i as int] == bs@[i as int]);
            assert(t@ == block_text(cur.last()));
            proof {
                if !any_shown(pre) {
                    lemma_none_shown(pre);
                    assert(out@ =~= t@);
                }
            }
            assert(blocks_text(cur) == (if any_shown(pre) { blocks_text(pre) + " "@ + block_text(cur.last()) } else { block_text(cur.last()) }));
        } else {
            assert(blocks_text(cur) == blocks_text(pre));
        }
        proof {
            if is_source {
                if any_shown(cur) {
                    let j = choose|j: int| 0 <= j < cur.len() && !(#[trigger] cur[j] is Source);
                    assert(pre[j] == cur[j]);
                }
                if any_shown(pre) {
                    let j = choose|j: int| 0 <= j < pre.len() && !(#[trigger] pre[j] is Source);
                    assert(pre[j] == cur[j]);
                }
            } else {
                if any_shown(pre) {
                    let j = choose|j: int| 0 <= j < pre.len() && !(#[trigger] pre[j] is Source);
                    assert(pre[j] == cur[j]);
                }
            }
        }
        i = i + 1;
    }
    assert(bs@.subrange(0, bs@.len() as int) =~= bs@);
    out
}

impl MessageBlock {
    /// A mention of `qq`.
    pub fn at(qq: QQ) -> (r: Self)
        ensures
            r matches MessageBlock::At { target, display } && target == qq && display@.len() == 0,
    {
        MessageBlock::At { target: qq, display: String::new() }
    }

    /// A mention of everyone.
    pub fn at_all() -> (r: Self)
        ensures
            r == MessageBlock::AtAll,
    {
        MessageBlock::AtAll
    }

    /// A block of plain text.
    pub fn text(text: &str) -> (r: Self)
        ensures
            r matches MessageBlock::Text { text: t } && t@ == text@,
    {
        MessageBlock::Text { text: String::from_str(text) }
    }

    /// An image taken from `url`.
    pub fn image_url(url: &str) -> (r: Self)
        ensures
            r matches MessageBlock::Image { image_id, url: u, base64 }
                && image_id@.len() == 0 && u@ == url@ && base64 is None,
    {
        MessageBlock::Image { image_id: String::new(), url: String::from_str(url), base64: None }
    }

    /// An image under the `images` directory of the resource root `root`.
    pub fn image_path(root: &str, path: &str) -> (r: Self)
        ensures
            r matches MessageBlock::Image { image_id, url, base64 }
                && image_id@.len() == 0 && url@ == resource_url(root@, "images"@, path@)
                && base64 is None,
    {
        let url = resource_path(root, "images", path);
        MessageBlock::image_url(url.as_str())
    }

    /// A voice clip taken from `url`.
    pub fn voice_url(url: &str) -> (r: Self)
        ensures
            r matches MessageBlock::Voice { voice_id, url: u, base64 }
                && voice_id is None && u is Some && u->Some_0@ == url@ && base64 is None,
    {
        MessageBlock::Voice { voice_id: None, url: Some(String::from_str(url)), base64: None }
    }

    /// A voice clip under the `voices` directory of the resource root `root`.
    pub fn voice_path(root: &str, path: &str) -> (r: Self)
        ensures
            r matches MessageBlock::Voice { voice_id, url, base64 }
                && voice_id is None && url is Some
                && url->Some_0@ == resource_url(root@, "voices"@, path@) && base64 is None,
    {
        let url = resource_path(root, "voices", path);
        MessageBlock::voice_url(url.as_str())
    }
}

/// The file url of `path` in the directory `dir` of the resource root `root`.
pub open spec fn resource_url(root: Seq<char>, dir: Seq<char>, path: Seq<char>) -> Seq<char> {
    "file:///"@ + root + "/"@ + dir + "/"@ + path
}

fn resource_path(root: &str, dir: &str, path: &str) -> (r: String)
    ensures
        r@ == resource_url(root@, dir@, path@),
{
    let mut s = String::from_str("file:///");
    s.append(root);
    s.append("/");
    s.append(dir);
    s.append("/");
    s.append(path);
    s
}

/// The answer a text gives to a yes-or-no question, if it is one of the
/// usual words for yes or for no.
pub open spec fn confirm_answer(s: Seq<char>) -> Option<bool> {
    if s == "好"@ || s == "好的"@ || s == "是"@ || s == "确认"@ || s == "真的"@ || s == "ok"@
        || s == "yes"@ || s == "y"@ || s == "√"@ || s == "1"@ {
        Some(true)
    } else if s == "不"@ || s == "否"@ || s == "算了"@ || s == "取消"@ || s == "no"@ || s == "n"@
        || s == "x"@ || s == "0"@ {
        Some(false)
    } else {
        None
    }
}

/// What `str::to_lowercase` makes of a text.
pub uninterp spec fn lowercase_of(s: Seq<char>) -> Seq<char>;

/// What `str::trim` leaves of a text.
pub uninterp spec fn trimmed_of(s: Seq<char>) -> Seq<char>;

/// Relies on `str::to_lowercase`: the lower-case form depends on the text alone.
#[verifier::external_body]
pub(crate) fn lowercase(s: &str) -> (r: String)
    ensures
        r@ == lowercase_of(s@),
{
    s.to_lowercase()
}

/// Relies on `str::trim`: the text without its leading and trailing white
/// space; an empty text stays empty.
#[verifier::external_body]
pub(crate) fn trim(s: &str) -> (r: &str)
    ensures
        r@ == trimmed_of(s@),
        s@.len() == 0 ==> r@.len() == 0,
{
    s.trim()
}

/// The answer that a normalised text gives to a yes-or-no question.
pub fn confirm_word(s: &str) -> (r: Option<bool>)
    ensures
        r == confirm_answer(s@),
{
    if text_eq(s, "好") || text_eq(s, "好的") || text_eq(s, "是") || text_eq(s, "确认")
        || text_eq(s, "真的") || text_eq(s, "ok") || text_eq(s, "yes") || text_eq(s, "y")
        || text_eq(s, "√") || text_eq(s, "1") {
        Some(true)
    } else if text_eq(s, "不") || text_eq(s, "否") || text_eq(s, "算了") || text_eq(s, "取消")
        || text_eq(s, "no") || text_eq(s, "n") || text_eq(s, "x") || text_eq(s, "0") {
        Some(false)
    } else {
        None
    }
}

impl MessageChain {
    /// The blocks of this chain.
    pub open spec fn blocks(&self) -> Seq<MessageBlock> {
        self.0@
    }

    /// The text this chain reads as.
    pub open spec fn text_of(&self) -> Seq<char> {
        blocks_text(self.0@)
    }

    /// An empty chain, to be filled for a reply.
    pub fn new() -> (r: Self)
        ensures
            r.blocks() == Seq::<MessageBlock>::empty(),
    {
        MessageChain(Vec::new())
    }

    /// A chain of one block.
    pub fn from_block(block: MessageBlock) -> (r: Self)
        ensures
            r.blocks() == seq![block],
    {
        let mut v = Vec::new();
        v.push(block);
        MessageChain(v)
    }

    /// Appends a mention of `qq`.
    pub fn at(self, qq: QQ) -> (r: Self)
        ensures
            r.blocks().len() == self.blocks().len() + 1,
            r.blocks().drop_last() == self.blocks(),
            r.blocks().last() matches MessageBlock::At { target, display } && target == qq
                && display@.len() == 0,
    {
        let mut v = self.0;
        v.push(MessageBlock::at(qq));
        let r = MessageChain(v);
        assert(r.blocks().drop_last() =~= self.blocks());
        r
    }

    /// Appends a mention of everyone.
    pub fn at_all(self) -> (r: Self)
        ensures
            r.blocks() == self.blocks().push(MessageBlock::AtAll),
    {
        let mut v = self.0;
        v.push(MessageBlock::AtAll);
        MessageChain(v)
    }

    /// Appends plain text.
    pub fn text(self, text: &str) -> (r: Self)
        ensures
            r.blocks().len() == self.blocks().len() + 1,
            r.blocks().drop_last() == self.blocks(),
            r.blocks().last() matches MessageBlock::Text { text: t } && t@ == text@,
    {
        let mut v = self.0;
        v.push(MessageBlock::text(text));
        let r = MessageChain(v);
        assert(r.blocks().drop_last() =~= self.blocks());
        r
    }

    /// Appends an image taken from `url`.
    pub fn image_url(self, url: &str) -> (r: Self)
        ensures
            r.blocks().len() == self.blocks().len() + 1,
            r.blocks().drop_last() == self.blocks(),
            r.blocks().last() matches MessageBlock::Image { image_id, url: u, base64 }
                && image_id@.len() == 0 && u@ == url@ && base64 is None,
    {
        let mut v = self.0;
        v.push(MessageBlock::image_url(url));
        let r = MessageChain(v);
        assert(r.blocks().drop_last() =~= self.blocks());
        r
    }

    /// Appends an image under the `images` directory of the resource root.
    pub fn image_path(self, root: &str, path: &str) -> (r: Self)
        ensures
            r.blocks().len() == self.blocks().len() + 1,
            r.blocks().drop_last() == self.blocks(),
            r.blocks().last() matches MessageBlock::Image { image_id, url, base64 }
                && image_id@.len() == 0 && url@ == resource_url(root@, "images"@, path@)
                && base64 is None,
    {
        let mut v = self.0;
        v.push(MessageBlock::image_path(root, path));
        let r = MessageChain(v);
        assert(r.blocks().drop_last() =~= self.blocks());
        r
    }

    /// Appends a voice clip taken from `url`.
    pub fn voice_url(self, url: &str) -> (r: Self)
        ensures
            r.blocks().len() == self.blocks().len() + 1,
            r.blocks().drop_last() == self.blocks(),
            r.blocks().last() matches MessageBlock::Voice { voice_id, url: u, base64 }
                && voice_id is None && u is Some && u->Some_0@ == url@ && base64 is None,
    {
        let mut v = self.0;
        v.push(MessageBlock::voice_url(url));
        let r = MessageChain(v);
        assert(r.blocks().drop_last() =~= self.blocks());
        r
    }

    /// Appends a voice clip under the `voices` directory of the resource root.
    pub fn voice_path(self, root: &str, path: &str) -> (r: Self)
        ensures
            r.blocks().len() == self.blocks().len() + 1,
            r.blocks().drop_last() == self.blocks(),
            r.blocks().last() matches MessageBlock::Voice { voice_id, url, base64 }
                && voice_id is None && url is Some
                && url->Some_0@ == resource_url(root@, "voices"@, path@) && base64 is None,
    {
        let mut v = self.0;
        v.push(MessageBlock::voice_path(root, path));
        let r = MessageChain(v);
        assert(r.blocks().drop_last() =~= self.blocks());
        r
    }

    /// The id of the message: that of its leading source block, if any.
    pub open spec fn id_of(&self) -> Option<i64> {
        if self.blocks().len() > 0 && self.blocks()[0] is Source {
            Some(self.blocks()[0]->Source_id)
        } else {
            None
        }
    }

    /// The id of the message, taken from its leading source block, if any.
    pub fn message_id(&self) -> (r: Option<i64>)
        ensures
            r == self.id_of(),
    {
        if self.0.len() == 0 {
            return None;
        }
        match &self.0[0] {
            MessageBlock::Source { id, .. } => Some(*id),
            _ => None,
        }
    }

    /// The text this chain reads as: the texts of its blocks other than the
    /// source, separated by single spaces.
    pub fn to_text(&self) -> (r: String)
        ensures
            r@ == self.text_of(),
    {
        blocks_to_text(&self.0)
    }

    /// The answer this message gives to a yes-or-no question: its text, in
    /// lower case and trimmed, read as one of the usual words for yes or no.
    pub fn as_confirm(&self) -> (r: Option<bool>)
        ensures
            r == confirm_answer(trimmed_of(lowercase_of(self.text_of()))),
    {
        let t = self.to_text();
        let lower = lowercase(t.as_str());
        let trimmed = trim(lower.as_str());
        confirm_word(trimmed)
    }
}

} // verus!
