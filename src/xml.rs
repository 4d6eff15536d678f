//! Message chains written as text with simple tags: `<v>` or `<voice>` around
//! the path of a voice clip, `<i>`, `<img>` or `<image>` around that of an
//! image, and plain text around them.

use vstd::prelude::*;
use vstd::string::*;
use crate::chain::{lowercase, lowercase_of, resource_url, trim, trimmed_of, MessageBlock, MessageChain};
use crate::json::text_eq;

verus! {

/// The pattern of a start tag, in any case.
pub const START_TAG: &'static str = "(?i)<(i|v|voice|img|image)>";

/// What `regex` finds for a pattern in a text: the text before the leftmost
/// match, the match, its first group, and the text after it.
pub uninterp spec fn regex_first_split(pattern: Seq<char>, s: Seq<char>) -> Option<(Seq<char>, Seq<char>, Seq<char>, Seq<char>)>;

/// Relies on `regex::Regex::captures`: the leftmost match of `pattern` in
/// `s`, with the text around it and its first group; none where nothing
/// matches or the pattern is not valid.
#[verifier::external_body]
fn split_first_match(pattern: &str, s: &str) -> (r: Option<(String, String, String, String)>)
    ensures
        match r {
            None => regex_first_split(pattern@, s@) is None,
            Some((b, w, g, a)) => regex_first_split(pattern@, s@) == Some((b@, w@, g@, a@))
                && s@ == b@ + w@ + a@,
        },
{
    let re = regex::Regex::new(pattern).ok()?;
    let cap = re.captures(s)?;
    let m = cap.get(0)?;
    let g = cap.get(1).map(|x| x.as_str()).unwrap_or("");
    Some((s[..m.start()].to_string(), m.as_str().to_string(), g.to_string(), s[m.end()..].to_string()))
}

/// The first position at or after `k` where `needle` stands in `hay`.
pub open spec fn index_from(hay: Seq<char>, needle: Seq<char>, k: int) -> Option<int>
    decreases hay.len() + 1 - k,
{
    if k < 0 || k + needle.len() > hay.len() {
        None
    } else if hay.subrange(k, k + needle.len()) == needle {
        Some(k)
    } else {
        index_from(hay, needle, k + 1)
    }
}

proof fn lemma_index_from_bounds(hay: Seq<char>, needle: Seq<char>, k: int)
    ensures
        index_from(hay, needle, k) matches Some(j) ==> k <= j && j + needle.len() <= hay.len(),
    decreases hay.len() + 1 - k,
{
    if !(k < 0 || k + needle.len() > hay.len()) && hay.subrange(k, k + needle.len()) != needle {
        lemma_index_from_bounds(hay, needle, k + 1);
    }
}

/// The first position where `needle` stands in `hay`.
pub fn find_text(hay: &str, needle: &str) -> (r: Option<usize>)
    ensures
        match index_from(hay@, needle@, 0) {
            Some(k) => r == Some(k as usize),
            None => r is None,
        },
        r matches Some(k) ==> k + needle@.len() <= hay@.len(),
{
    let h = hay.unicode_len();
    let n = needle.unicode_len();
    if n > h {
        return None;
    }
    let mut k: usize = 0;
    while k <= h - n
        invariant
            h == hay@.len(),
            n == needle@.len(),
            n <= h,
            index_from(hay@, needle@, 0) == index_from(hay@, needle@, k as int),
        decreases h - k,
    {
        let part = hay.substring_char(k, k + n);
        if text_eq(part, needle) {
            return Some(k);
        }
        if k == h {
            assert(index_from(hay@, needle@, k + 1) is None);
            return None;
        }
        k = k + 1;
    }
    assert(index_from(hay@, needle@, k as int) is None);
    None
}

/// A block as plain values: 0 for text, 1 for a voice clip, 2 for an image,
/// with its text or url.
pub open spec fn describes(b: MessageBlock, d: (int, Seq<char>)) -> bool {
    match b {
        MessageBlock::Text { text } => d.0 == 0 && text@ == d.1,
        MessageBlock::Voice { voice_id, url, base64 } => d.0 == 1 && voice_id is None
            && url is Some && url->Some_0@ == d.1 && base64 is None,
        MessageBlock::Image { image_id, url, base64 } => d.0 == 2 && image_id@.len() == 0
            && url@ == d.1 && base64 is None,
        _ => false,
    }
}

/// The text block of `s` trimmed, if anything is left of it.
pub open spec fn text_blocks(s: Seq<char>) -> Seq<(int, Seq<char>)> {
    if trimmed_of(s).len() > 0 { seq![(0int, trimmed_of(s))] } else { seq![] }
}

/// The block a tag stands for, with the path `body` under the root.
pub open spec fn tag_block(root: Seq<char>, tag: Seq<char>, body: Seq<char>) -> (int, Seq<char>) {
    if lowercase_of(tag) == "v"@ || lowercase_of(tag) == "voice"@ {
        (1int, resource_url(root, "voices"@, body))
    } else {
        (2int, resource_url(root, "images"@, body))
    }
}

/// The blocks the tagged text `rest` stands for.
pub open spec fn xml_blocks(root: Seq<char>, rest: Seq<char>) -> Seq<(int, Seq<char>)>
    decreases rest.len(),
{
    match regex_first_split(START_TAG@, rest) {
        Some((b, w, t, a)) => if w.len() > 0 && rest == b + w + a {
            let end = "</"@ + t + ">"@;
            match index_from(a, end, 0) {
                Some(k) => if 0 <= k && k + end.len() <= a.len() {
                    text_blocks(b) + seq![tag_block(root, t, trimmed_of(a.subrange(0, k)))]
                        + xml_blocks(root, a.subrange(k + end.len(), a.len() as int))
                } else {
                    text_blocks(b) + seq![(0int, rest)]
                },
                None => text_blocks(b) + seq![(0int, rest)],
            }
        } else {
            text_blocks(rest)
        },
        None => text_blocks(rest),
    }
}

impl MessageChain {
    /// Reads a chain from tagged text; paths are taken relative to the
    /// resource root `root`. A start tag without its end tag makes the rest
    /// of the text one text block.
    pub fn from_xml(root: &str, xml: &str) -> (r: Self)
        ensures
            r.blocks().len() == xml_blocks(root@, xml@).len(),
            forall|i: int| 0 <= i < r.blocks().len() ==> describes(#[trigger] r.blocks()[i], xml_blocks(root@, xml@)[i]),
    {
        let mut blocks: Vec<MessageBlock> = Vec::new();
        let mut rest = String::from_str(xml);
        let ghost done: Seq<(int, Seq<char>)> = seq![];
        loop
            invariant_except_break
                xml_blocks(root@, xml@) == done + xml_blocks(root@, rest@),
            invariant
                blocks@.len() == done.len(),
                forall|i: int| 0 <= i < blocks@.len() ==> describes(#[trigger] blocks@[i], done[i]),
            ensures
                blocks@.len() == done.len(),
                forall|i: int| 0 <= i < blocks@.len() ==> describes(#[trigger] blocks@[i], done[i]),
                xml_blocks(root@, xml@) == done + text_blocks(rest@)
                    || (rest@.len() == 0 && xml_blocks(root@, xml@) == done),
            decreases rest@.len(),
        {
            let found = split_first_match(START_TAG, rest.as_str());
            let (before, whole, tag, after) = match found {
                Some(x) => x,
                None => {
                    break;
                },
            };
            if whole.unicode_len() == 0 {
                break;
            }
            let ghost old_rest = rest@;
            let ghost old_len = blocks@.len();
            let head = trim(before.as_str());
            if head.unicode_len() > 0 {
                blocks.push(MessageBlock::text(head));
            }
            proof {
                assert(blocks@.subrange(old_len as int, blocks@.len() as int).len() == text_blocks(before@).len());
                done = done + text_blocks(before@);
            }
            let mut end_pat = String::from_str("</");
            end_pat.append(tag.as_str());
            end_pat.append(">");
            match find_text(after.as_str(), end_pat.as_str()) {
                Some(k) => {
                    let body = trim(after.as_str().substring_char(0, k));
                    let kind = lowercase(tag.as_str());
                    let block = if text_eq(kind.as_str(), "v") || text_eq(kind.as_str(), "voice") {
                        MessageBlock::voice_path(root, body)
                    } else {
                        MessageBlock::image_path(root, body)
                    };
                    blocks.push(block);
                    let n = end_pat.unicode_len();
                    let alen = after.unicode_len();
                    let next = String::from_str(after.as_str().substring_char(k + n, alen));
                    proof {
                        lemma_index_from_bounds(after@, end_pat@, 0);
                        assert(end_pat@ == "</"@ + tag@ + ">"@);
                        assert(index_from(after@, end_pat@, 0) == Some(k as int));
                        assert(regex_first_split(START_TAG@, old_rest) == Some((before@, whole@, tag@, after@)));
                        assert(old_rest == before@ + whole@ + after@);
                        assert(next@ == after@.subrange(k + n, after@.len() as int));
                        done = done + seq![tag_block(root@, tag@, trimmed_of(after@.subrange(0, k as int)))];
                        assert(xml_blocks(root@, old_rest) == text_blocks(before@)
                            + seq![tag_block(root@, tag@, trimmed_of(after@.subrange(0, k as int)))]
                            + xml_blocks(root@, next@));
                    }
                    rest = next;
                },
                None => {
                    blocks.push(MessageBlock::Text { text: rest });
                    proof {
                        done = done + seq![(0int, old_rest)];
                    }
                    rest = String::new();
                    break;
                },
            }
        }
        let tail = trim(rest.as_str());
        if tail.unicode_len() > 0 {
            blocks.push(MessageBlock::text(tail));
        }
        MessageChain(blocks)
    }
}

} // verus!
