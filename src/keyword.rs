//! The keyword command router: handlers registered under text prefixes,
//! fired by every message whose text begins with their prefix.

use vstd::prelude::*;
use crate::json::starts_with;
use crate::message::Message;

verus! {

/// Whether `text` begins with `prefix`.
pub open spec fn has_prefix(text: Seq<char>, prefix: Seq<char>) -> bool {
    prefix.len() <= text.len() && text.subrange(0, prefix.len() as int) == prefix
}

/// The registered keyword handlers, in order of registration. Entries are
/// only ever added.
pub struct KeywordCommandHandlers<H> {
    entries: Vec<(String, H)>,
}

impl<H> KeywordCommandHandlers<H> {
    /// The registered prefixes, in order.
    pub closed spec fn prefixes(&self) -> Seq<Seq<char>> {
        self.entries@.map_values(|e: (String, H)| e.0@)
    }

    /// The registered handlers, in order.
    pub closed spec fn handlers(&self) -> Seq<H> {
        self.entries@.map_values(|e: (String, H)| e.1)
    }

    /// An empty table.
    pub fn new() -> (r: Self)
        ensures
            r.prefixes() == Seq::<Seq<char>>::empty(),
            r.handlers() == Seq::<H>::empty(),
    {
        let r = KeywordCommandHandlers { entries: Vec::new() };
        assert(r.prefixes() =~= Seq::<Seq<char>>::empty());
        assert(r.handlers() =~= Seq::<H>::empty());
        r
    }

    /// Registers `handler` under `prefix`, after those already there.
    pub fn command(&mut self, prefix: String, handler: H)
        ensures
            final(self).prefixes() == old(self).prefixes().push(prefix@),
            final(self).handlers() == old(self).handlers().push(handler),
    {
        let ghost p = prefix@;
        self.entries.push((prefix, handler));
        assert(self.prefixes() =~= old(self).prefixes().push(p));
        assert(self.handlers() =~= old(self).handlers().push(handler));
    }

    /// How many handlers are registered.
    pub fn len(&self) -> (r: usize)
        ensures
            r == self.prefixes().len(),
            r == self.handlers().len(),
    {
        self.entries.len()
    }

    /// The handler registered at position `i`.
    pub fn handler(&self, i: usize) -> (r: &H)
        requires
            i < self.handlers().len(),
        ensures
            *r == self.handlers()[i as int],
    {
        &self.entries[i].1
    }

    /// The positions of the handlers whose prefix `text` begins with, in
    /// order of registration; all of them fire, not only the first.
    pub fn matching(&self, text: &str) -> (r: Vec<usize>)
        ensures
            forall|i: int, j: int| 0 <= i < j < r@.len() ==> r@[i] < r@[j],
            forall|i: int| 0 <= i < r@.len() ==> r@[i] < self.prefixes().len()
                && has_prefix(text@, self.prefixes()[r@[i] as int]),
            forall|k: usize| (k as int) < self.prefixes().len()
                && has_prefix(text@, self.prefixes()[k as int]) ==> r@.contains(k),
    {
        let mut r: Vec<usize> = Vec::new();
        let mut k: usize = 0;
        while k < self.entries.len()
            invariant
                k <= self.entries@.len(),
                self.prefixes().len() == self.entries@.len(),
                forall|i: int, j: int| 0 <= i < j < r@.len() ==> r@[i] < r@[j],
                forall|i: int| 0 <= i < r@.len() ==> r@[i] < k
                    && has_prefix(text@, self.prefixes()[r@[i] as int]),
                forall|x: usize| x < k && has_prefix(text@, self.prefixes()[x as int]) ==> r@.contains(x),
            decreases self.entries@.len() - k,
        {
            let hit = starts_with(text, self.entries[k].0.as_str());
            assert(self.prefixes()[k as int] == self.entries@[k as int].0@);
            if hit {
                let ghost before = r@;
                r.push(k);
                proof {
                    assert forall|x: usize| x < k + 1 && has_prefix(text@, self.prefixes()[x as int])
                        implies r@.contains(x) by {
                        if x < k {
                            assert(before.contains(x));
                            let i = choose|i: int| 0 <= i < before.len() && before[i] == x;
                            assert(r@[i] == x);
                        } else {
                            assert(r@[before.len() as int] == x);
                        }
                    };
                }
            }
            k = k + 1;
        }
        r
    }

    /// The handlers a delivery fires: those whose prefix its text begins
    /// with; none for an event, which has no text.
    pub fn targets(&self, message: &Message) -> (r: Vec<usize>)
        ensures
            message.text_of() is None ==> r@.len() == 0,
            message.text_of() is Some ==> {
                &&& forall|i: int, j: int| 0 <= i < j < r@.len() ==> r@[i] < r@[j]
                &&& forall|i: int| 0 <= i < r@.len() ==> r@[i] < self.prefixes().len()
                    && has_prefix(message.text_of()->Some_0, self.prefixes()[r@[i] as int])
                &&& forall|k: usize| (k as int) < self.prefixes().len()
                    && has_prefix(message.text_of()->Some_0, self.prefixes()[k as int]) ==> r@.contains(k)
            },
    {
        match message.text() {
            Some(t) => self.matching(t.as_str()),
            None => Vec::new(),
        }
    }
}

/// A handler fires for a text if and only if the text begins with its
/// prefix, and every handler whose prefix matches fires.
pub proof fn law_fires_iff_prefix<H>(table: KeywordCommandHandlers<H>, text: Seq<char>, fired: Seq<usize>, k: usize)
    requires
        (k as int) < table.prefixes().len(),
        forall|i: int| 0 <= i < fired.len() ==> fired[i] < table.prefixes().len()
            && has_prefix(text, table.prefixes()[fired[i] as int]),
        forall|x: usize| (x as int) < table.prefixes().len()
            && has_prefix(text, table.prefixes()[x as int]) ==> fired.contains(x),
    ensures
        fired.contains(k) <==> has_prefix(text, table.prefixes()[k as int]),
{
    if fired.contains(k) {
        let i = choose|i: int| 0 <= i < fired.len() && fired[i] == k;
        assert(has_prefix(text, table.prefixes()[fired[i] as int]));
    }
}

} // verus!
