//! Live (WebSocket-backed, subscribable) resources: the bookkeeping behind
//! the fan-out of one upstream channel to many MCP subscribers.
//!
//! The binary owns the asynchronous parts (the upstream stream, the reader
//! task, the broadcast of updates, the cancellation tokens). What they rest
//! on is decided here:
//!
//! - [`SubscriptionTable`]: which URIs have a live upstream subscription,
//!   how many handles hold each, when a new upstream channel must be opened
//!   and when one must be torn down.
//! - [`notify_gate`]: the per-URI notification throttle.
//! - [`push_history`]: the rolling newest-first history of frames.
//! - [`channel_name_for`]: the upstream channel of a URI.
use vstd::prelude::*;
use std::collections::VecDeque;
use super::{ResourceKind, ResourceUri};
use crate::text::{owned, push_str};

verus! {

// ----- channel names ------------------------------------------------------

/// The upstream Deribit channel of a URI: `book.<i>.raw`,
/// `ticker.<i>.100ms`, `trades.<i>.raw`; the static URIs (which never reach
/// the live registry) get stable descriptive names.
pub open spec fn channel_name(u: (ResourceKind, Seq<char>)) -> Seq<char> {
    match u.0 {
        ResourceKind::Book => "book."@ + u.1 + ".raw"@,
        ResourceKind::Ticker => "ticker."@ + u.1 + ".100ms"@,
        ResourceKind::Trades => "trades."@ + u.1 + ".raw"@,
        ResourceKind::Currencies => "currencies"@,
        ResourceKind::Instruments => "instruments."@ + u.1,
    }
}

/// Map a live URI to its upstream Deribit channel name.
pub fn channel_name_for(uri: &ResourceUri) -> (r: String)
    ensures
        r@ == channel_name(uri@),
{
    match uri {
        ResourceUri::Book { instrument } => {
            let mut s = owned("book.");
            push_str(&mut s, instrument.as_str());
            push_str(&mut s, ".raw");
            s
        },
        ResourceUri::Ticker { instrument } => {
            let mut s = owned("ticker.");
            push_str(&mut s, instrument.as_str());
            push_str(&mut s, ".100ms");
            s
        },
        ResourceUri::Trades { instrument } => {
            let mut s = owned("trades.");
            push_str(&mut s, instrument.as_str());
            push_str(&mut s, ".raw");
            s
        },
        ResourceUri::Currencies => owned("currencies"),
        ResourceUri::Instruments { currency } => {
            let mut s = owned("instruments.");
            push_str(&mut s, currency.as_str());
            s
        },
    }
}

// ----- notification throttle ----------------------------------------------

/// Receiver of resource-updated notifications, implemented by the server
/// that forwards them to the subscribed MCP peers. Fired after the throttle
/// gate; the URI is borrowed, the sink clones it if it needs to own it.
pub trait NotificationSink: Send + Sync + 'static {
    /// A frame for `uri` passed the throttle gate.
    fn notify(&self, uri: &ResourceUri);
}

/// Default per-URI notification interval: 100 ms (about 10 Hz), in
/// nanoseconds. Faster frames are coalesced; a read returns the latest.
pub const DEFAULT_NOTIFY_INTERVAL_NANOS: u64 = 100_000_000u64;

/// Whether a frame arriving at `now` fires the notification sink, given the
/// interval and the time of the last notification (all in nanoseconds on
/// one monotonic clock): always when the interval is zero (throttle off) or
/// nothing was sent yet, otherwise when at least `interval` has elapsed (a
/// clock that went backwards counts as no time elapsed).
pub open spec fn should_notify(interval: u64, last: Option<u64>, now: u64) -> bool {
    if interval == 0 {
        true
    } else {
        match last {
            None => true,
            Some(prev) => (if now >= prev { now - prev } else { 0 }) >= interval,
        }
    }
}

/// The throttle gate: decides whether to fire, and records the time when it
/// does.
pub fn notify_gate(interval: u64, last: &mut Option<u64>, now: u64) -> (r: bool)
    ensures
        r == should_notify(interval, *old(last), now),
        *final(last) == if r {
            Some(now)
        } else {
            *old(last)
        },
{
    let emit = if interval == 0 {
        true
    } else {
        match *last {
            None => true,
            Some(prev) => {
                let elapsed = if now >= prev {
                    now - prev
                } else {
                    0
                };
                elapsed >= interval
            },
        }
    };
    if emit {
        *last = Some(now);
    }
    emit
}

/// Within one interval after a notification, no further notification
/// fires: a burst of frames closer together than the interval produces a
/// single notification.
pub proof fn lemma_throttle_coalesces(interval: u64, sent: u64, now: u64)
    requires
        interval > 0,
        sent <= now,
        now - sent < interval,
    ensures
        !should_notify(interval, Some(sent), now),
{
}

// ----- rolling history ----------------------------------------------------

/// Maximum number of frames kept in a subscription's history.
pub const HISTORY_CAPACITY: usize = 32;

/// The history after one more frame: the frame in front, the oldest frame
/// dropped when the history was full.
pub open spec fn history_push<T>(h: Seq<T>, v: T) -> Seq<T> {
    if h.len() == HISTORY_CAPACITY {
        seq![v] + h.drop_last()
    } else {
        seq![v] + h
    }
}

/// The history after the frames `vals` (oldest first) arrived on an empty
/// history.
pub open spec fn history_of<T>(vals: Seq<T>) -> Seq<T>
    decreases vals.len(),
{
    if vals.len() == 0 {
        Seq::<T>::empty()
    } else {
        history_push(history_of(vals.drop_last()), vals.last())
    }
}

/// Record a frame: push it in front and drop the oldest frame when the
/// history is full.
pub fn push_history<T>(history: &mut VecDeque<T>, value: T)
    requires
        old(history)@.len() <= HISTORY_CAPACITY,
    ensures
        final(history)@ == history_push(old(history)@, value),
        final(history)@.len() <= HISTORY_CAPACITY,
{
    if history.len() == HISTORY_CAPACITY {
        history.pop_back();
    }
    history.push_front(value);
    assert(history@ =~= history_push(old(history)@, value));
}

/// The history holds the newest frames, newest first, at most
/// [`HISTORY_CAPACITY`] of them.
pub proof fn lemma_history_newest_first<T>(vals: Seq<T>)
    ensures
        history_of(vals).len() == if vals.len() < HISTORY_CAPACITY {
            vals.len()
        } else {
            HISTORY_CAPACITY as nat
        },
        forall|i: int|
            0 <= i < history_of(vals).len() ==> #[trigger] history_of(vals)[i] == vals[vals.len()
                - 1 - i],
    decreases vals.len(),
{
    if vals.len() > 0 {
        let prev = vals.drop_last();
        lemma_history_newest_first(prev);
        let h = history_of(prev);
        let v = vals.last();
        assert forall|i: int| 0 <= i < history_of(vals).len() implies #[trigger] history_of(
            vals,
        )[i] == vals[vals.len() - 1 - i] by {
            if i > 0 {
                assert(history_of(vals)[i] == h[i - 1]);
                assert(prev[prev.len() - 1 - (i - 1)] == vals[vals.len() - 1 - i]);
            }
        }
    }
}

// ----- subscription table -------------------------------------------------

/// The key of a subscription: the URI's kind and currency / instrument.
pub type UriKey = (ResourceKind, Seq<char>);

/// One upstream subscription: identified by `id`, held by `refcount`
/// handles.
#[derive(Debug)]
struct Slot {
    id: u64,
    uri: ResourceUri,
    refcount: u64,
}

/// What `subscribe` must do after [`SubscriptionTable::try_attach`] found no
/// current subscription and the upstream channel has been opened.
#[derive(Debug, Clone, Copy, PartialEq, Eq, Structural)]
pub enum Published {
    /// The new subscription `id` is now the URI's current one, held by one
    /// handle: spawn its reader.
    Fresh(u64),
    /// Another subscriber published first; a handle on its subscription `id`
    /// was taken. Cancel and drop the channel just opened.
    Joined(u64),
}

spec fn distinct_ids(slots: Seq<Slot>) -> bool {
    forall|i: int, j: int| 0 <= i < j < slots.len() ==> slots[i].id != slots[j].id
}

spec fn distinct_uris(slots: Seq<Slot>) -> bool {
    forall|i: int, j: int| 0 <= i < j < slots.len() ==> slots[i].uri@ != slots[j].uri@
}

spec fn index_of_uri(slots: Seq<Slot>, k: UriKey) -> int {
    choose|i: int| 0 <= i < slots.len() && slots[i].uri@ == k
}

spec fn entry_in(slots: Seq<Slot>, k: UriKey) -> Option<(u64, nat)> {
    if exists|i: int| 0 <= i < slots.len() && slots[i].uri@ == k {
        let s = slots[index_of_uri(slots, k)];
        Some((s.id, s.refcount as nat))
    } else {
        None
    }
}

proof fn lemma_entry_at(slots: Seq<Slot>, k: int)
    requires
        0 <= k < slots.len(),
        distinct_uris(slots),
    ensures
        entry_in(slots, slots[k].uri@) == Some((slots[k].id, slots[k].refcount as nat)),
{
    let j = index_of_uri(slots, slots[k].uri@);
    if j != k {
        if j < k {
            assert(slots[j].uri@ != slots[k].uri@);
        } else {
            assert(slots[k].uri@ != slots[j].uri@);
        }
    }
}

proof fn lemma_entry_absent(slots: Seq<Slot>, k: UriKey)
    requires
        forall|i: int| 0 <= i < slots.len() ==> slots[i].uri@ != k,
    ensures
        entry_in(slots, k) is None,
{
}

/// A URI's entry after one more handle was taken on it: its current
/// subscription with one more handle, or a fresh subscription `fresh` with
/// one handle.
pub open spec fn after_attach(e: Option<(u64, nat)>, fresh: u64) -> Option<(u64, nat)> {
    match e {
        Some(p) => Some((p.0, p.1 + 1)),
        None => Some((fresh, 1nat)),
    }
}

/// A URI's entry after one handle on it was dropped.
pub open spec fn after_release(e: Option<(u64, nat)>) -> Option<(u64, nat)> {
    match e {
        Some(p) => Some((p.0, (p.1 - 1) as nat)),
        None => None,
    }
}

/// A URI's entry after the deferred teardown: gone when no handle is left.
pub open spec fn after_teardown(e: Option<(u64, nat)>) -> Option<(u64, nat)> {
    match e {
        Some(p) => if p.1 == 0 {
            None
        } else {
            e
        },
        None => None,
    }
}

/// Dropping a handle undoes taking it, and once every handle taken on a
/// fresh subscription is dropped, the teardown removes it: `n` subscribes
/// followed by `n` drops leave the URI unsubscribed, while a subscription
/// that still has a handle survives the teardown.
pub proof fn lemma_release_undoes_attach(e: Option<(u64, nat)>, fresh: u64)
    ensures
        e is Some ==> after_release(after_attach(e, fresh)) == e,
        after_teardown(after_release(after_attach(None, fresh))) is None,
        (e matches Some(p) && p.1 > 0) ==> after_teardown(e) == e,
{
}

/// The number of handles of an entry, `0` for no entry.
pub open spec fn handles(e: Option<(u64, nat)>) -> nat {
    match e {
        Some(p) => p.1,
        None => 0,
    }
}

/// Refcounted table of live resource subscriptions: for every subscribed
/// URI, its current subscription's id and the number of handles on it.
pub struct SubscriptionTable {
    slots: Vec<Slot>,
    next_id: u64,
}

impl SubscriptionTable {
    #[verifier::type_invariant]
    spec fn well_formed(self) -> bool {
        &&& distinct_ids(self.slots@)
        &&& distinct_uris(self.slots@)
        &&& forall|i: int| 0 <= i < self.slots@.len() ==> self.slots@[i].id < self.next_id
    }

    /// The URI's current subscription: its id and refcount.
    pub closed spec fn entry(self, k: UriKey) -> Option<(u64, nat)> {
        entry_in(self.slots@, k)
    }

    /// Number of URIs with a current subscription.
    pub closed spec fn live_count(self) -> nat {
        self.slots@.len()
    }

    /// The id the next fresh subscription gets.
    pub closed spec fn next_id(self) -> u64 {
        self.next_id
    }

    /// No URI is subscribed.
    pub open spec fn is_empty_spec(self) -> bool {
        self.live_count() == 0
    }

    /// An empty table.
    pub fn new() -> (r: SubscriptionTable)
        ensures
            forall|k: UriKey| #[trigger] r.entry(k) is None,
            r.live_count() == 0,
            r.next_id() == 0,
    {
        SubscriptionTable { slots: Vec::new(), next_id: 0 }
    }

    fn find(&self, uri: &ResourceUri) -> (r: Option<usize>)
        ensures
            match r {
                Some(k) => k < self.slots@.len() && self.slots@[k as int].uri@ == uri@,
                None => forall|i: int| 0 <= i < self.slots@.len() ==> self.slots@[i].uri@ != uri@,
            },
    {
        let n = self.slots.len();
        let mut i: usize = 0;
        while i < n
            invariant
                n == self.slots@.len(),
                i <= n,
                forall|j: int| 0 <= j < i ==> self.slots@[j].uri@ != uri@,
            decreases n - i,
        {
            if self.slots[i].uri.same(uri) {
                return Some(i);
            }
            i = i + 1;
        }
        None
    }

    /// Refcount of the URI's current subscription, `0` when there is none.
    pub fn refcount(&self, uri: &ResourceUri) -> (r: u64)
        ensures
            r == match self.entry(uri@) {
                Some(e) => e.1,
                None => 0,
            },
    {
        proof {
            use_type_invariant(self);
        }
        match self.find(uri) {
            Some(k) => {
                proof {
                    lemma_entry_at(self.slots@, k as int);
                }
                self.slots[k].refcount
            },
            None => 0,
        }
    }

    /// The URI's current subscription: its id and handle count.
    pub fn lookup(&self, uri: &ResourceUri) -> (r: Option<(u64, u64)>)
        ensures
            match self.entry(uri@) {
                Some(e) => r matches Some(p) && p.0 == e.0 && p.1 == e.1,
                None => r is None,
            },
    {
        proof {
            use_type_invariant(self);
        }
        match self.find(uri) {
            Some(k) => {
                proof {
                    lemma_entry_at(self.slots@, k as int);
                }
                Some((self.slots[k].id, self.slots[k].refcount))
            },
            None => None,
        }
    }

    /// The id that the next fresh subscription gets.
    pub fn fresh_id(&self) -> (r: u64)
        ensures
            r == self.next_id(),
    {
        self.next_id
    }

    /// Number of URIs with a current subscription.
    pub fn len(&self) -> (r: usize)
        ensures
            r == self.live_count(),
    {
        self.slots.len()
    }

    /// Whether no URI is subscribed.
    pub fn is_empty(&self) -> (r: bool)
        ensures
            r == self.is_empty_spec(),
    {
        self.slots.len() == 0
    }

    /// Fast path of `subscribe`: when the URI has a current subscription,
    /// take one more handle on it and return its id; otherwise change
    /// nothing and return `None` (the caller then opens the upstream channel
    /// and calls [`Self::publish`]).
    pub fn try_attach(&mut self, uri: &ResourceUri) -> (r: Option<u64>)
        requires
            old(self).entry(uri@) matches Some(e) ==> e.1 < u64::MAX,
        ensures
            match old(self).entry(uri@) {
                Some(e) => r == Some(e.0) && final(self).entry(uri@) == Some((e.0, e.1 + 1)),
                None => r is None && final(self).entry(uri@) is None,
            },
            r matches Some(id) ==> final(self).entry(uri@) == after_attach(old(self).entry(uri@), id),
            forall|k: UriKey| k != uri@ ==> #[trigger] final(self).entry(k) == old(self).entry(k),
            final(self).live_count() == old(self).live_count(),
            final(self).next_id() == old(self).next_id(),
    {
        proof {
            use_type_invariant(&*self);
        }
        match self.find(uri) {
            None => None,
            Some(k) => {
                let ghost old_s = self.slots@;
                proof {
                    lemma_entry_at(old_s, k as int);
                }
                let mut v: Vec<Slot> = Vec::new();
                std::mem::swap(&mut v, &mut self.slots);
                let slot = v.remove(k);
                let id = slot.id;
                let bumped = Slot { id, uri: slot.uri, refcount: slot.refcount + 1 };
                v.insert(k, bumped);
                let ghost new_s = v@;
                proof {
                    assert forall|i: int| 0 <= i < new_s.len() && i != k implies new_s[i]
                        == old_s[i] by {}
                    assert(distinct_ids(new_s)) by {
                        assert forall|i: int, j: int| 0 <= i < j < new_s.len() implies new_s[i].id
                            != new_s[j].id by {
                            if i == k {
                                assert(old_s[k as int].id != old_s[j].id);
                            } else if j == k {
                                assert(old_s[i].id != old_s[k as int].id);
                            }
                        }
                    }
                    assert(distinct_uris(new_s)) by {
                        assert forall|i: int, j: int| 0 <= i < j < new_s.len() implies new_s[i].uri@
                            != new_s[j].uri@ by {
                            if i == k {
                                assert(old_s[k as int].uri@ != old_s[j].uri@);
                            } else if j == k {
                                assert(old_s[i].uri@ != old_s[k as int].uri@);
                            }
                        }
                    }
                    lemma_entry_at(new_s, k as int);
                    assert forall|key: UriKey| key != uri@ implies #[trigger] entry_in(new_s, key)
                        == entry_in(old_s, key) by {
                        if exists|i: int| 0 <= i < old_s.len() && old_s[i].uri@ == key {
                            let i = index_of_uri(old_s, key);
                            lemma_entry_at(old_s, i);
                            lemma_entry_at(new_s, i);
                        } else {
                            assert forall|i: int| 0 <= i < new_s.len() implies new_s[i].uri@
                                != key by {
                                if i != k {
                                    assert(new_s[i] == old_s[i]);
                                }
                            }
                        }
                    }
                }
                self.slots = v;
                Some(id)
            },
        }
    }

    /// Slow path of `subscribe`, after the upstream channel was opened: when
    /// another subscriber has published meanwhile, join its subscription;
    /// otherwise register a fresh subscription with one handle.
    pub fn publish(&mut self, uri: &ResourceUri) -> (r: Published)
        requires
            old(self).entry(uri@) matches Some(e) ==> e.1 < u64::MAX,
            old(self).next_id() < u64::MAX,
        ensures
            match old(self).entry(uri@) {
                Some(e) => r == Published::Joined(e.0) && final(self).entry(uri@) == Some(
                    (e.0, e.1 + 1),
                ) && final(self).live_count() == old(self).live_count() && final(self).next_id()
                    == old(self).next_id(),
                None => r == Published::Fresh(old(self).next_id()) && final(self).entry(uri@)
                    == Some((old(self).next_id(), 1nat)) && final(self).live_count() == old(
                    self,
                ).live_count() + 1 && final(self).next_id() == old(self).next_id() + 1,
            },
            final(self).entry(uri@) == after_attach(old(self).entry(uri@), old(self).next_id()),
            forall|k: UriKey| k != uri@ ==> #[trigger] final(self).entry(k) == old(self).entry(k),
    {
        proof {
            use_type_invariant(&*self);
        }
        match self.try_attach(uri) {
            Some(id) => Published::Joined(id),
            None => {
                proof {
                    use_type_invariant(&*self);
                }
                let ghost old_s = self.slots@;
                let ghost mid = *self;
                let id = self.next_id;
                let mut v: Vec<Slot> = Vec::new();
                std::mem::swap(&mut v, &mut self.slots);
                let fresh = Slot { id, uri: uri.duplicate(), refcount: 1 };
                v.push(fresh);
                let ghost new_s = v@;
                proof {
                    assert(forall|i: int|
                        0 <= i < old_s.len() ==> old_s[i].uri@ != uri@) by {
                        if exists|i: int| 0 <= i < old_s.len() && old_s[i].uri@ == uri@ {
                            let i = choose|i: int| 0 <= i < old_s.len() && old_s[i].uri@ == uri@;
                            lemma_entry_at(old_s, i);
                        }
                    }
                    assert(new_s[old_s.len() as int].uri@ == uri@);
                    assert(distinct_uris(new_s));
                    assert(distinct_ids(new_s));
                    lemma_entry_at(new_s, old_s.len() as int);
                    assert forall|key: UriKey| key != uri@ implies #[trigger] entry_in(new_s, key)
                        == entry_in(old_s, key) by {
                        if exists|i: int| 0 <= i < old_s.len() && old_s[i].uri@ == key {
                            let i = index_of_uri(old_s, key);
                            lemma_entry_at(old_s, i);
                            lemma_entry_at(new_s, i);
                        } else {
                            assert forall|i: int| 0 <= i < new_s.len() implies new_s[i].uri@
                                != key by {
                                if i < old_s.len() {
                                    assert(new_s[i] == old_s[i]);
                                }
                            }
                        }
                    }
                }
                self.next_id = id + 1;
                self.slots = v;
                proof {
                    assert forall|key: UriKey| key != uri@ implies #[trigger] self.entry(key)
                        == old(self).entry(key) by {
                        assert(mid.entry(key) == old(self).entry(key));
                    }
                }
                Published::Fresh(id)
            },
        }
    }

    /// A handle on the URI's subscription `id` was dropped. Returns whether
    /// it was the last one, in which case the caller schedules
    /// [`Self::teardown`].
    pub fn release(&mut self, uri: &ResourceUri, id: u64) -> (r: bool)
        requires
            old(self).entry(uri@) matches Some(e) && e.0 == id && e.1 >= 1,
        ensures
            final(self).entry(uri@) == Some((id, (handles(old(self).entry(uri@)) - 1) as nat)),
            r == (handles(old(self).entry(uri@)) == 1),
            final(self).entry(uri@) == after_release(old(self).entry(uri@)),
            forall|k: UriKey| k != uri@ ==> #[trigger] final(self).entry(k) == old(self).entry(k),
            final(self).live_count() == old(self).live_count(),
            final(self).next_id() == old(self).next_id(),
    {
        proof {
            use_type_invariant(&*self);
        }
        let ghost old_s = self.slots@;
        let k = match self.find(uri) {
            Some(k) => k,
            None => {
                proof {
                    lemma_entry_absent(old_s, uri@);
                }
                return false;
            },
        };
        proof {
            lemma_entry_at(old_s, k as int);
        }
        let mut v: Vec<Slot> = Vec::new();
        std::mem::swap(&mut v, &mut self.slots);
        let slot = v.remove(k);
        let prev = slot.refcount;
        let lowered = Slot { id: slot.id, uri: slot.uri, refcount: prev - 1 };
        v.insert(k, lowered);
        let ghost new_s = v@;
        proof {
            assert forall|i: int| 0 <= i < new_s.len() && i != k implies new_s[i] == old_s[i] by {}
            assert(distinct_ids(new_s)) by {
                assert forall|i: int, j: int| 0 <= i < j < new_s.len() implies new_s[i].id
                    != new_s[j].id by {
                    if i == k {
                        assert(old_s[k as int].id != old_s[j].id);
                    } else if j == k {
                        assert(old_s[i].id != old_s[k as int].id);
                    }
                }
            }
            assert(distinct_uris(new_s)) by {
                assert forall|i: int, j: int| 0 <= i < j < new_s.len() implies new_s[i].uri@
                    != new_s[j].uri@ by {
                    if i == k {
                        assert(old_s[k as int].uri@ != old_s[j].uri@);
                    } else if j == k {
                        assert(old_s[i].uri@ != old_s[k as int].uri@);
                    }
                }
            }
            lemma_entry_at(new_s, k as int);
            assert forall|key: UriKey| key != uri@ implies #[trigger] entry_in(new_s, key)
                == entry_in(old_s, key) by {
                if exists|i: int| 0 <= i < old_s.len() && old_s[i].uri@ == key {
                    let i = index_of_uri(old_s, key);
                    lemma_entry_at(old_s, i);
                    lemma_entry_at(new_s, i);
                } else {
                    assert forall|i: int| 0 <= i < new_s.len() implies new_s[i].uri@ != key by {
                        if i != k {
                            assert(new_s[i] == old_s[i]);
                        }
                    }
                }
            }
        }
        self.slots = v;
        prev == 1
    }

    /// Deferred teardown after the last handle was dropped: when the URI's
    /// current subscription still has no handle (no subscriber re-attached
    /// meanwhile), remove it and return its id, whose upstream reader the
    /// caller cancels; otherwise change nothing.
    pub fn teardown(&mut self, uri: &ResourceUri) -> (r: Option<u64>)
        ensures
            match old(self).entry(uri@) {
                Some(e) => if e.1 == 0 {
                    r == Some(e.0) && final(self).entry(uri@) is None && final(self).live_count()
                        == old(self).live_count() - 1
                } else {
                    r is None && final(self).entry(uri@) == old(self).entry(uri@)
                        && final(self).live_count() == old(self).live_count()
                },
                None => r is None && final(self).entry(uri@) is None && final(self).live_count()
                    == old(self).live_count(),
            },
            final(self).entry(uri@) == after_teardown(old(self).entry(uri@)),
            forall|k: UriKey| k != uri@ ==> #[trigger] final(self).entry(k) == old(self).entry(k),
            final(self).next_id() == old(self).next_id(),
    {
        proof {
            use_type_invariant(&*self);
        }
        let ghost old_s = self.slots@;
        let k = match self.find(uri) {
            Some(k) => k,
            None => {
                proof {
                    lemma_entry_absent(old_s, uri@);
                }
                return None;
            },
        };
        proof {
            lemma_entry_at(old_s, k as int);
        }
        if self.slots[k].refcount != 0 {
            return None;
        }
        let mut v: Vec<Slot> = Vec::new();
        std::mem::swap(&mut v, &mut self.slots);
        let slot = v.remove(k);
        let ghost new_s = v@;
        proof {
            assert forall|i: int| 0 <= i < new_s.len() implies new_s[i] == old_s[if i < k {
                i
            } else {
                i + 1
            }] by {}
            assert(distinct_ids(new_s)) by {
                assert forall|i: int, j: int| 0 <= i < j < new_s.len() implies new_s[i].id
                    != new_s[j].id by {
                    let a = if i < k { i } else { i + 1 };
                    let b = if j < k { j } else { j + 1 };
                    assert(old_s[a].id != old_s[b].id);
                }
            }
            assert(distinct_uris(new_s)) by {
                assert forall|i: int, j: int| 0 <= i < j < new_s.len() implies new_s[i].uri@
                    != new_s[j].uri@ by {
                    let a = if i < k { i } else { i + 1 };
                    let b = if j < k { j } else { j + 1 };
                    assert(old_s[a].uri@ != old_s[b].uri@);
                }
            }
            assert forall|i: int| 0 <= i < new_s.len() implies new_s[i].uri@ != uri@ by {
                let a = if i < k { i } else { i + 1 };
                if a < k {
                    assert(old_s[a].uri@ != old_s[k as int].uri@);
                } else {
                    assert(old_s[k as int].uri@ != old_s[a].uri@);
                }
            }
            lemma_entry_absent(new_s, uri@);
            assert forall|key: UriKey| key != uri@ implies #[trigger] entry_in(new_s, key)
                == entry_in(old_s, key) by {
                if exists|i: int| 0 <= i < old_s.len() && old_s[i].uri@ == key {
                    let i = index_of_uri(old_s, key);
                    lemma_entry_at(old_s, i);
                    assert(i != k);
                    let ni = if i < k { i } else { i - 1 };
                    assert(new_s[ni] == old_s[i]);
                    lemma_entry_at(new_s, ni);
                } else {
                    assert forall|i: int| 0 <= i < new_s.len() implies new_s[i].uri@ != key by {
                        let a = if i < k { i } else { i + 1 };
                        assert(new_s[i] == old_s[a]);
                    }
                }
            }
        }
        self.slots = v;
        Some(slot.id)
    }
}

} // verus!
