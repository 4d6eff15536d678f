//! Correlation of replies with requests: fresh ids, the table of requests
//! that wait for a reply, and what a wait comes to.

use vstd::prelude::*;
use crate::error::Error;
use crate::extensions::Extensions;
use crate::json::Json;

verus! {

/// The first correlation id handed out; lower ids are left to the gateway's
/// own frames.
pub const FIRST_SYNC_ID: i64 = 10;

/// The source of correlation ids: each id is handed out once, in increasing
/// order, starting above the reserved range.
pub struct SyncIds {
    next: i64,
}

impl SyncIds {
    /// The id that will be handed out next.
    pub closed spec fn upcoming(&self) -> int {
        self.next as int
    }

    /// A fresh source.
    pub fn new() -> (r: Self)
        ensures
            r.upcoming() == FIRST_SYNC_ID,
    {
        SyncIds { next: FIRST_SYNC_ID }
    }

    /// Hands out the next id; none once every id has been used.
    pub fn next_id(&mut self) -> (r: Option<i64>)
        ensures
            old(self).upcoming() < i64::MAX ==> r == Some(old(self).upcoming() as i64)
                && final(self).upcoming() == old(self).upcoming() + 1,
            old(self).upcoming() >= i64::MAX ==> r is None && final(self).upcoming() == old(self).upcoming(),
    {
        if self.next == i64::MAX {
            None
        } else {
            let r = self.next;
            self.next = self.next + 1;
            Some(r)
        }
    }
}

/// The requests that wait for a reply, each under its correlation id, with
/// what is needed to hand it the reply.
pub struct PendingRequests<W> {
    waiters: Extensions<W>,
}

impl<W> PendingRequests<W> {
    /// The waiting requests by id.
    pub closed spec fn view(&self) -> Map<i64, W> {
        Map::new(
            |k: i64| k > 0 && self.waiters@.contains_key(k as u64),
            |k: i64| self.waiters@[k as u64],
        )
    }

    /// Ids in the table are positive.
    pub closed spec fn wf(&self) -> bool {
        &&& self.waiters.wf()
        &&& forall|u: u64| #[trigger] self.waiters@.contains_key(u) ==> 0 < u <= i64::MAX
    }

    /// An empty table.
    pub fn new() -> (r: Self)
        ensures
            r.wf(),
            r.view() == Map::<i64, W>::empty(),
    {
        let r = PendingRequests { waiters: Extensions::new() };
        assert(r.view() =~= Map::<i64, W>::empty());
        r
    }

    /// Whether a request waits under `id`.
    pub fn is_pending(&self, id: i64) -> (r: bool)
        requires
            self.wf(),
        ensures
            r == self.view().contains_key(id),
    {
        id > 0 && self.waiters.contains(id as u64)
    }

    /// Registers a request under `id`. A non-positive id, or one already
    /// waiting, is refused and the waiter handed back.
    pub fn register(&mut self, id: i64, waiter: W) -> (r: Result<(), W>)
        requires
            old(self).wf(),
        ensures
            final(self).wf(),
            (id > 0 && !old(self).view().contains_key(id)) ==> r is Ok
                && final(self).view() == old(self).view().insert(id, waiter),
            !(id > 0 && !old(self).view().contains_key(id)) ==> r == Err::<(), W>(waiter)
                && final(self).view() == old(self).view(),
    {
        if id <= 0 || self.waiters.contains(id as u64) {
            return Err(waiter);
        }
        let ghost before = self.waiters@;
        self.waiters.insert(id as u64, waiter);
        assert(self.view() =~= old(self).view().insert(id, waiter));
        Ok(())
    }

    /// Takes the request waiting under `id` out of the table: done when its
    /// reply arrives, and by the caller itself when it stops waiting.
    pub fn take(&mut self, id: i64) -> (r: Option<W>)
        requires
            old(self).wf(),
        ensures
            final(self).wf(),
            final(self).view() == old(self).view().remove(id),
            r == (if old(self).view().contains_key(id) { Some(old(self).view()[id]) } else { None }),
    {
        if id <= 0 {
            assert(self.view() =~= old(self).view().remove(id));
            return None;
        }
        let r = self.waiters.remove(id as u64);
        assert(self.view() =~= old(self).view().remove(id));
        r
    }
}

/// Once a caller has stopped waiting on `id`, a reply that arrives later for
/// `id` finds nobody: it is discarded, and the requests that still wait keep
/// their places, so it reaches none of them.
pub proof fn law_late_reply_discarded<W>(waiting: Map<i64, W>, id: i64, other: i64)
    requires
        other != id,
    ensures
        !waiting.remove(id).contains_key(id),
        waiting.remove(id).remove(id) == waiting.remove(id),
        waiting.contains_key(other) ==> waiting.remove(id).remove(id).contains_key(other)
            && waiting.remove(id).remove(id)[other] == waiting[other],
{
    assert(waiting.remove(id).remove(id) =~= waiting.remove(id));
}

/// How a wait for a reply ended.
pub enum WaitOutcome {
    /// The reply arrived, with this body.
    Replied(Json),
    /// The connection closed first.
    Closed,
    /// The deadline passed first.
    Elapsed,
}

/// Accepts a timeout, given in nanoseconds, only when it is longer than zero.
pub fn check_timeout(nanos: u128) -> (r: Result<(), Error>)
    ensures
        r is Ok <==> nanos > 0,
        r is Err ==> r->Err_0 is InvalidTimeout,
{
    if nanos == 0 {
        Err(Error::InvalidTimeout)
    } else {
        Ok(())
    }
}

/// The reply body a wait yielded, or why there is none: a closed connection,
/// or a deadline that passed.
pub fn finish_wait(outcome: WaitOutcome) -> (r: Result<Json, Error>)
    ensures
        match outcome {
            WaitOutcome::Replied(v) => r == Ok::<Json, Error>(v),
            WaitOutcome::Closed => r matches Err(Error::ConnectionClosed),
            WaitOutcome::Elapsed => r matches Err(Error::RequestTimeout),
        },
{
    match outcome {
        WaitOutcome::Replied(v) => Ok(v),
        WaitOutcome::Closed => Err(Error::ConnectionClosed),
        WaitOutcome::Elapsed => Err(Error::RequestTimeout),
    }
}

} // verus!
