//! The realtime event hub: numbers published events, keeps a bounded window
//! of the latest ones for replay, appends each to an event log, and answers
//! a reconnecting subscriber with the events it missed.
use std::collections::VecDeque;
use vstd::prelude::*;
use crate::ids::{now_utc, UtcTimestamp};
use crate::text::{int_decimal, lemma_parse_nat_decimal, parse_u64, parse_u64_text, str_eq, u64_text};

verus! {

/// `serde_json::Value`, the free-form payload that events carry.
#[verifier::external_type_specification]
#[verifier::external_body]
pub struct ExJsonValue(serde_json::Value);

/// `<serde_json::Value as Clone>::clone`: the derived clone, a value equal
/// to the one cloned.
#[verifier::external_body]
fn clone_payload(v: &serde_json::Value) -> (r: serde_json::Value)
    ensures
        r == *v,
{
    v.clone()
}

/// Who caused an event.
#[derive(Debug, Clone, Copy, PartialEq, Eq, Structural)]
pub enum RealtimeActorType {
    Human,
    Agent,
    System,
    External,
}

/// The actor of an event, with an optional display name.
#[derive(Debug)]
pub struct RealtimeActor {
    pub actor_type: RealtimeActorType,
    pub id: String,
    pub display_name: Option<String>,
}

impl RealtimeActor {
    /// A copy with the same content.
    pub fn copy(&self) -> (r: Self)
        ensures
            r == *self,
    {
        RealtimeActor {
            actor_type: self.actor_type,
            id: self.id.clone(),
            display_name: match &self.display_name {
                Some(n) => Some(n.clone()),
                None => None,
            },
        }
    }
}

/// A published event as subscribers receive it.
#[derive(Debug)]
pub struct RealtimeEvent {
    pub event_id: String,
    pub sequence: u64,
    pub event_type: String,
    pub schema_version: u16,
    pub occurred_at: UtcTimestamp,
    pub app_id: Option<String>,
    pub run_id: Option<String>,
    pub job_id: Option<String>,
    pub correlation_id: Option<String>,
    pub actor: Option<RealtimeActor>,
    pub payload: serde_json::Value,
}

fn copy_opt(s: &Option<String>) -> (r: Option<String>)
    ensures
        r == *s,
{
    match s {
        Some(t) => Some(t.clone()),
        None => None,
    }
}

impl RealtimeEvent {
    /// A copy with the same content.
    pub fn copy(&self) -> (r: Self)
        ensures
            r == *self,
    {
        RealtimeEvent {
            event_id: self.event_id.clone(),
            sequence: self.sequence,
            event_type: self.event_type.clone(),
            schema_version: self.schema_version,
            occurred_at: self.occurred_at,
            app_id: copy_opt(&self.app_id),
            run_id: copy_opt(&self.run_id),
            job_id: copy_opt(&self.job_id),
            correlation_id: copy_opt(&self.correlation_id),
            actor: match &self.actor {
                Some(a) => Some(a.copy()),
                None => None,
            },
            payload: clone_payload(&self.payload),
        }
    }
}

/// What a publisher hands the hub; the hub adds the identity, sequence,
/// schema version and time.
#[derive(Debug)]
pub struct RealtimeEventInput {
    pub event_type: String,
    pub app_id: Option<String>,
    pub run_id: Option<String>,
    pub job_id: Option<String>,
    pub correlation_id: Option<String>,
    pub actor: Option<RealtimeActor>,
    pub payload: serde_json::Value,
}

/// Where a reconnecting subscriber left off: a sequence number, or the id
/// of the last event it saw.
#[derive(Debug, Clone, Default)]
pub struct RealtimeCursor {
    pub since_sequence: Option<u64>,
    pub last_event_id: Option<String>,
}

/// A destination that every published event is appended to.
pub trait RealtimeEventLog {
    /// The events appended so far.
    spec fn entries(&self) -> Seq<RealtimeEvent>;

    /// Whether this log never refuses an event.
    spec fn accepts_all(&self) -> bool;

    /// Appends a copy of `event`. On success the log has grown by exactly
    /// that event; on failure it is unchanged.
    fn append(&mut self, event: &RealtimeEvent) -> (r: Result<(), String>)
        ensures
            r is Ok ==> final(self).entries() == old(self).entries().push(*event),
            r is Err ==> final(self).entries() == old(self).entries(),
            old(self).accepts_all() ==> r is Ok,
            final(self).accepts_all() == old(self).accepts_all(),
    ;
}

/// An event log held in memory.
#[derive(Debug, Default)]
pub struct InMemoryRealtimeEventLog {
    events: Vec<RealtimeEvent>,
}

impl InMemoryRealtimeEventLog {
    /// An empty log.
    pub fn new() -> (r: Self)
        ensures
            r.entries() == Seq::<RealtimeEvent>::empty(),
    {
        InMemoryRealtimeEventLog { events: Vec::new() }
    }

    /// A copy of every event appended so far, oldest first.
    pub fn snapshot(&self) -> (r: Vec<RealtimeEvent>)
        ensures
            r@ == self.entries(),
    {
        let mut r: Vec<RealtimeEvent> = Vec::new();
        let mut i: usize = 0;
        while i < self.events.len()
            invariant
                i <= self.events@.len(),
                r@ == self.events@.subrange(0, i as int),
            decreases self.events@.len() - i,
        {
            r.push(self.events[i].copy());
            i = i + 1;
            assert(r@ =~= self.events@.subrange(0, i as int));
        }
        assert(self.events@.subrange(0, self.events@.len() as int) =~= self.events@);
        r
    }
}

impl RealtimeEventLog for InMemoryRealtimeEventLog {
    closed spec fn entries(&self) -> Seq<RealtimeEvent> {
        self.events@
    }

    open spec fn accepts_all(&self) -> bool {
        true
    }

    fn append(&mut self, event: &RealtimeEvent) -> (r: Result<(), String>)
        ensures
            r is Ok,
    {
        self.events.push(event.copy());
        Ok(())
    }
}

/// The last `n` elements of `s`, or all of them where there are fewer.
pub open spec fn keep_last<A>(s: Seq<A>, n: int) -> Seq<A> {
    if s.len() <= n {
        s
    } else if n <= 0 {
        Seq::empty()
    } else {
        s.subrange(s.len() - n, s.len() as int)
    }
}

/// The counter after handing out `n`: one more, wrapping to zero after
/// `u64::MAX` as an atomic `fetch_add` does.
pub open spec fn next_after(n: u64) -> u64 {
    if n < u64::MAX {
        (n + 1) as u64
    } else {
        0
    }
}

/// The first event of `s` whose id has the text `id`, by its sequence
/// number.
pub open spec fn sequence_of_id(s: Seq<RealtimeEvent>, id: Seq<char>) -> Option<u64>
    decreases s.len(),
{
    if s.len() == 0 {
        None
    } else if s[0].event_id@ == id {
        Some(s[0].sequence)
    } else {
        sequence_of_id(s.drop_first(), id)
    }
}

/// The sequence number after which a subscriber with `cursor` resumes:
/// its explicit sequence; else its last event id read as a number; else
/// the sequence of the replayed event with that id. `None` where none of
/// these applies.
pub open spec fn resume_point(replay: Seq<RealtimeEvent>, cursor: RealtimeCursor) -> Option<u64> {
    match cursor.since_sequence {
        Some(s) => Some(s),
        None => match cursor.last_event_id {
            None => None,
            Some(id) => match parse_u64(id@) {
                Some(v) => Some(v as u64),
                None => sequence_of_id(replay, id@),
            },
        },
    }
}

/// The events of `s` numbered after `after`, in order.
pub open spec fn events_after(s: Seq<RealtimeEvent>, after: u64) -> Seq<RealtimeEvent> {
    s.filter(|e: RealtimeEvent| e.sequence > after)
}

/// What a subscriber with `cursor` is replayed from the window `replay`.
pub open spec fn replay_for(replay: Seq<RealtimeEvent>, cursor: RealtimeCursor) -> Seq<RealtimeEvent> {
    match resume_point(replay, cursor) {
        Some(after) => events_after(replay, after),
        None => Seq::empty(),
    }
}

/// Numbers published events, keeps the latest `replay_capacity` of them for
/// replay, and appends every event to its log.
pub struct RealtimeHub<L> {
    replay: VecDeque<RealtimeEvent>,
    event_log: L,
    next_sequence: u64,
    replay_capacity: usize,
}

impl<L: RealtimeEventLog> RealtimeHub<L> {
    /// The events held for replay, oldest first.
    pub closed spec fn window(&self) -> Seq<RealtimeEvent> {
        self.replay@
    }

    /// The sequence number the next event will get.
    pub closed spec fn next_sequence_spec(&self) -> u64 {
        self.next_sequence
    }

    /// How many events are held for replay at most.
    pub closed spec fn capacity(&self) -> int {
        self.replay_capacity as int
    }

    /// The log the hub appends to.
    pub closed spec fn log(&self) -> L {
        self.event_log
    }

    /// The window holds at most `capacity` events, numbered consecutively
    /// up to the last sequence handed out.
    pub closed spec fn well_formed(&self) -> bool {
        &&& self.replay@.len() <= self.replay_capacity
        &&& self.replay@.len() < self.next_sequence
        &&& forall|i: int| 0 <= i < self.replay@.len() ==>
            (#[trigger] self.replay@[i]).sequence == self.next_sequence - self.replay@.len() + i
        &&& forall|i: int| 0 <= i < self.replay@.len() ==>
            (#[trigger] self.replay@[i]).event_id@ == int_decimal(self.replay@[i].sequence as int)
    }

    /// A hub that keeps up to `replay_capacity` events and appends to
    /// `event_log`. The first event gets sequence number 1.
    pub fn with_event_log(replay_capacity: usize, event_log: L) -> (r: Self)
        ensures
            r.window() == Seq::<RealtimeEvent>::empty(),
            r.next_sequence_spec() == 1,
            r.capacity() == replay_capacity,
            r.log() == event_log,
            r.well_formed(),
    {
        RealtimeHub { replay: VecDeque::new(), event_log, next_sequence: 1, replay_capacity }
    }

    /// The log the hub appends to.
    pub fn event_log(&self) -> (r: &L)
        ensures
            *r == self.log(),
    {
        &self.event_log
    }

    /// What publishing `input` at time `at` does, taking the hub from
    /// `before` to `after` and handing out `event`: the event gets the next
    /// sequence number, that number in decimal as its id, schema version 1
    /// and the input's fields; the counter moves on (wrapping after
    /// `u64::MAX`); the log grows by the event unless it refuses it, which a
    /// log that accepts all never does; and, where the capacity is not zero,
    /// the event enters the replay window, which drops its oldest events
    /// beyond the capacity.
    pub open spec fn publication(before: Self, after: Self, input: RealtimeEventInput, at: UtcTimestamp, event: RealtimeEvent) -> bool {
        &&& event.sequence == before.next_sequence_spec()
        &&& event.event_id@ == int_decimal(event.sequence as int)
        &&& event.event_type == input.event_type
        &&& event.schema_version == 1
        &&& event.occurred_at == at
        &&& event.app_id == input.app_id
        &&& event.run_id == input.run_id
        &&& event.job_id == input.job_id
        &&& event.correlation_id == input.correlation_id
        &&& event.actor == input.actor
        &&& event.payload == input.payload
        &&& after.next_sequence_spec() == next_after(before.next_sequence_spec())
        &&& after.capacity() == before.capacity()
        &&& before.capacity() == 0 ==> after.window() == before.window()
        &&& before.capacity() > 0 ==> after.window() == keep_last(before.window(), before.capacity() - 1).push(event)
        &&& after.log().accepts_all() == before.log().accepts_all()
        &&& before.log().accepts_all() ==> after.log().entries() == before.log().entries().push(event)
        &&& after.log().entries() == before.log().entries().push(event)
            || after.log().entries() == before.log().entries()
    }

    /// Publishes `input` at time `occurred_at`, as `publication` describes.
    /// A well-formed hub stays well-formed while its counter has not
    /// reached `u64::MAX`.
    pub fn publish_at(&mut self, input: RealtimeEventInput, occurred_at: UtcTimestamp) -> (event: RealtimeEvent)
        ensures
            Self::publication(*old(self), *final(self), input, occurred_at, event),
            old(self).well_formed() && old(self).next_sequence_spec() < u64::MAX
                ==> final(self).well_formed(),
    {
        let sequence = self.next_sequence;
        self.next_sequence = sequence.wrapping_add(1);
        let event = RealtimeEvent {
            event_id: u64_text(sequence),
            sequence,
            event_type: input.event_type,
            schema_version: 1,
            occurred_at,
            app_id: input.app_id,
            run_id: input.run_id,
            job_id: input.job_id,
            correlation_id: input.correlation_id,
            actor: input.actor,
            payload: input.payload,
        };
        let _ = self.event_log.append(&event);
        if self.replay_capacity > 0 {
            let ghost before = self.replay@;
            let ghost next = self.next_sequence;
            let ghost cap = self.replay_capacity;
            let ghost log = self.event_log;
            while self.replay.len() >= self.replay_capacity
                invariant
                    self.replay_capacity > 0,
                    self.next_sequence == next,
                    self.replay_capacity == cap,
                    self.event_log == log,
                    self.replay@.len() <= before.len(),
                    self.replay@ == before.subrange(before.len() - self.replay@.len(), before.len() as int),
                    self.replay@.len() == before.len() || self.replay@.len() + 1 >= self.replay_capacity,
                decreases self.replay@.len(),
            {
                self.replay.pop_front();
            }
            proof {
                if self.replay@.len() == before.len() {
                    assert(self.replay@ =~= before);
                }
            }
            self.replay.push_back(event.copy());
            assert(self.replay@ =~= keep_last(before, cap - 1).push(event));
        }
        event
    }

    /// Publishes `input` now: as `publish_at`, at the current time, which the
    /// event records.
    pub fn publish(&mut self, input: RealtimeEventInput) -> (event: RealtimeEvent)
        ensures
            Self::publication(*old(self), *final(self), input, event.occurred_at, event),
            old(self).well_formed() && old(self).next_sequence_spec() < u64::MAX
                ==> final(self).well_formed(),
    {
        let at = now_utc();
        self.publish_at(input, at)
    }

    /// The sequence of the first held event whose id is `id`.
    fn sequence_of_event_id(&self, id: &str) -> (r: Option<u64>)
        ensures
            r == sequence_of_id(self.replay@, id@),
    {
        let n = self.replay.len();
        let mut i: usize = 0;
        assert(self.replay@.subrange(0, n as int) =~= self.replay@);
        while i < n
            invariant
                n == self.replay@.len(),
                i <= n,
                sequence_of_id(self.replay@, id@) == sequence_of_id(
                    self.replay@.subrange(i as int, n as int),
                    id@,
                ),
            decreases n - i,
        {
            let rest = Ghost(self.replay@.subrange(i as int, n as int));
            if str_eq(self.replay[i].event_id.as_str(), id) {
                return Some(self.replay[i].sequence);
            }
            assert(rest@.drop_first() =~= self.replay@.subrange(i + 1, n as int));
            i = i + 1;
        }
        None
    }

    /// The held events that a subscriber with `cursor` missed, oldest first:
    /// those numbered after its resume point, and none where the cursor
    /// gives no resume point.
    pub fn replay_after(&self, cursor: &RealtimeCursor) -> (r: Vec<RealtimeEvent>)
        ensures
            r@ == replay_for(self.window(), *cursor),
    {
        let after = match cursor.since_sequence {
            Some(s) => Some(s),
            None => match &cursor.last_event_id {
                None => None,
                Some(id) => match parse_u64_text(id.as_str()) {
                    Some(v) => Some(v),
                    None => self.sequence_of_event_id(id.as_str()),
                },
            },
        };
        let after = match after {
            Some(a) => a,
            None => {
                return Vec::new();
            },
        };
        let n = self.replay.len();
        let mut r: Vec<RealtimeEvent> = Vec::new();
        let mut i: usize = 0;
        while i < n
            invariant
                n == self.replay@.len(),
                i <= n,
                r@ == events_after(self.replay@.take(i as int), after),
            decreases n - i,
        {
            proof {
                reveal(Seq::filter);
                assert(self.replay@.take(i + 1).drop_last() =~= self.replay@.take(i as int));
            }
            if self.replay[i].sequence > after {
                r.push(self.replay[i].copy());
            }
            i = i + 1;
        }
        assert(self.replay@.take(n as int) =~= self.replay@);
        r
    }
}

/// Filtering a run of consecutively numbered events by "numbered after
/// `after`" keeps the events numbered `after + 1` onwards, a suffix.
proof fn lemma_consecutive_suffix(w: Seq<RealtimeEvent>, base: int, after: u64)
    requires
        forall|i: int| 0 <= i < w.len() ==> (#[trigger] w[i]).sequence == base + i,
    ensures
        events_after(w, after) == keep_last(w, base + w.len() - 1 - after),
    decreases w.len(),
{
    reveal(Seq::filter);
    if w.len() > 0 {
        let rest = w.drop_last();
        assert forall|i: int| 0 <= i < rest.len() implies (#[trigger] rest[i]).sequence == base + i by {
            assert(rest[i] == w[i]);
        }
        lemma_consecutive_suffix(rest, base, after);
        let n = base + w.len() - 1 - after;
        assert(w.last().sequence == base + w.len() - 1);
        if n >= 1 {
            if w.len() <= n {
                assert(keep_last(rest, n - 1) == rest);
                assert(rest.push(w.last()) =~= w);
            } else {
                assert(keep_last(rest, n - 1).push(w.last()) =~= keep_last(w, n));
            }
        } else {
            assert(keep_last(rest, n - 1) =~= Seq::<RealtimeEvent>::empty());
            assert(keep_last(w, n) =~= Seq::<RealtimeEvent>::empty());
        }
    }
}

/// Keeping the last `c` and then the last `c - 1` of those keeps the last
/// `c - 1`; adding an element after the last `c - 1` keeps the last `c`.
proof fn lemma_keep_last_push<A>(s: Seq<A>, x: A, c: int)
    requires
        c > 0,
    ensures
        keep_last(keep_last(s, c), c - 1).push(x) == keep_last(s.push(x), c),
{
    let k = keep_last(s, c);
    let lhs = keep_last(k, c - 1).push(x);
    let rhs = keep_last(s.push(x), c);
    if s.len() + 1 <= c {
        assert(lhs =~= rhs);
    } else {
        assert(lhs.len() == rhs.len());
        assert forall|i: int| 0 <= i < lhs.len() implies lhs[i] == rhs[i] by {
            if i < lhs.len() - 1 {
                assert(lhs[i] == s[s.len() - (c - 1) + i]);
            }
        }
        assert(lhs =~= rhs);
    }
}

impl<L: RealtimeEventLog> RealtimeHub<L> {
    /// What a run of `k` publications from `hs[0]` has done by `hs[k]`.
    pub open spec fn run_state(hs: Seq<Self>, es: Seq<RealtimeEvent>, k: int) -> bool {
        &&& hs[k].next_sequence_spec() == k + 1
        &&& hs[k].capacity() == hs[0].capacity()
        &&& hs[k].window() == keep_last(es.take(k), hs[0].capacity())
        &&& hs[k].log().accepts_all() == hs[0].log().accepts_all()
        &&& hs[0].log().accepts_all() ==> hs[k].log().entries() == hs[0].log().entries() + es.take(k)
    }

    proof fn lemma_run_prefix(
        hs: Seq<Self>,
        inputs: Seq<RealtimeEventInput>,
        ats: Seq<UtcTimestamp>,
        es: Seq<RealtimeEvent>,
        k: int,
    )
        requires
            hs.len() == es.len() + 1,
            inputs.len() == es.len(),
            ats.len() == es.len(),
            hs[0].next_sequence_spec() == 1,
            hs[0].window() == Seq::<RealtimeEvent>::empty(),
            es.len() < u64::MAX,
            forall|j: int| 0 <= j < es.len() ==> #[trigger] Self::publication(hs[j], hs[j + 1], inputs[j], ats[j], es[j]),
            0 <= k <= es.len(),
        ensures
            Self::run_state(hs, es, k),
            forall|j: int| 0 <= j < k ==> (#[trigger] es[j]).sequence == j + 1,
        decreases k,
    {
        if k == 0 {
            assert(es.take(0) =~= Seq::<RealtimeEvent>::empty());
            assert(hs[0].log().entries() + es.take(0) =~= hs[0].log().entries());
        } else {
            Self::lemma_run_prefix(hs, inputs, ats, es, k - 1);
            assert(Self::publication(hs[k - 1], hs[k], inputs[k - 1], ats[k - 1], es[k - 1]));
            assert(es.take(k) =~= es.take(k - 1).push(es[k - 1]));
            let c = hs[0].capacity();
            if c > 0 {
                lemma_keep_last_push(es.take(k - 1), es[k - 1], c);
            } else {
                assert(keep_last(es.take(k), c) =~= Seq::<RealtimeEvent>::empty());
                assert(keep_last(es.take(k - 1), c) =~= Seq::<RealtimeEvent>::empty());
            }
            if hs[0].log().accepts_all() {
                assert(hs[k].log().entries() =~= hs[0].log().entries() + es.take(k));
            }
        }
    }

    /// A run of publications from a fresh hub: the event published `k`-th
    /// (from 0) gets sequence number `k + 1` and that number in decimal as
    /// its id; a log that accepts every event then holds, after what it held
    /// before, exactly the events published, in order; the window holds the
    /// latest of them up to the capacity (none with capacity 0); and the
    /// counter stands one past the last number handed out.
    pub proof fn law_publication_run(
        hs: Seq<Self>,
        inputs: Seq<RealtimeEventInput>,
        ats: Seq<UtcTimestamp>,
        es: Seq<RealtimeEvent>,
    )
        requires
            hs.len() == es.len() + 1,
            inputs.len() == es.len(),
            ats.len() == es.len(),
            hs[0].next_sequence_spec() == 1,
            hs[0].window() == Seq::<RealtimeEvent>::empty(),
            es.len() < u64::MAX,
            forall|j: int| 0 <= j < es.len() ==> #[trigger] Self::publication(hs[j], hs[j + 1], inputs[j], ats[j], es[j]),
        ensures
            forall|k: int| 0 <= k < es.len() ==> (#[trigger] es[k]).sequence == k + 1 && es[k].event_id@
                == int_decimal(k + 1),
            hs[0].log().accepts_all() ==> hs.last().log().entries() == hs[0].log().entries() + es,
            hs.last().window() == keep_last(es, hs[0].capacity()),
            hs.last().next_sequence_spec() == es.len() + 1,
    {
        let n = es.len() as int;
        Self::lemma_run_prefix(hs, inputs, ats, es, n);
        assert(es.take(n) =~= es);
        assert forall|k: int| 0 <= k < es.len() implies (#[trigger] es[k]).sequence == k + 1 && es[k].event_id@
            == int_decimal(k + 1) by {
            assert(Self::publication(hs[k], hs[k + 1], inputs[k], ats[k], es[k]));
        }
    }
}

impl<L: RealtimeEventLog> RealtimeHub<L> {
    /// Two publications in a row hand out consecutive sequence numbers, so
    /// numbers only grow while the counter has not reached `u64::MAX`.
    pub proof fn law_consecutive_sequences(
        h0: Self,
        h1: Self,
        h2: Self,
        in1: RealtimeEventInput,
        in2: RealtimeEventInput,
        at1: UtcTimestamp,
        at2: UtcTimestamp,
        e1: RealtimeEvent,
        e2: RealtimeEvent,
    )
        requires
            Self::publication(h0, h1, in1, at1, e1),
            Self::publication(h1, h2, in2, at2, e2),
            h0.next_sequence_spec() < u64::MAX,
        ensures
            e2.sequence == e1.sequence + 1,
    {
    }

    /// After a publication into a well-formed hub with a nonzero capacity,
    /// the newest held event is the one published, and the window holds the
    /// latest events up to the capacity.
    pub proof fn law_window_keeps_latest(
        h0: Self,
        h1: Self,
        input: RealtimeEventInput,
        at: UtcTimestamp,
        e: RealtimeEvent,
    )
        requires
            h0.well_formed(),
            h0.capacity() > 0,
            Self::publication(h0, h1, input, at, e),
        ensures
            h1.window().last() == e,
            h1.window().len() as int == if h0.window().len() < h0.capacity() {
                h0.window().len() + 1int
            } else {
                h0.capacity()
            },
    {
    }

    /// A subscriber that resumes after sequence number `after` is replayed
    /// exactly the held events numbered `after + 1` onwards: the newest
    /// `next - 1 - after` of the window, or all of it where it holds fewer.
    pub proof fn law_replay_is_suffix(h: Self, after: u64)
        requires
            h.well_formed(),
        ensures
            events_after(h.window(), after) == keep_last(h.window(), h.next_sequence_spec() - 1 - after),
    {
        let w = h.window();
        lemma_consecutive_suffix(w, h.next_sequence_spec() - w.len(), after);
    }

    /// A subscriber that resumes from the id of an event it was sent is
    /// replayed exactly what it would be replayed from that event's
    /// sequence number.
    pub proof fn law_resume_by_event_id(h: Self, event: RealtimeEvent, by_id: RealtimeCursor, by_sequence: RealtimeCursor)
        requires
            event.event_id@ == int_decimal(event.sequence as int),
            by_id.since_sequence is None,
            by_id.last_event_id == Some(event.event_id),
            by_sequence.since_sequence == Some(event.sequence),
        ensures
            replay_for(h.window(), by_id) == replay_for(h.window(), by_sequence),
    {
        lemma_parse_nat_decimal(event.sequence as nat, 0, u64::MAX as int);
    }

    /// A subscriber whose cursor names neither a sequence nor an event is
    /// replayed nothing: it only receives what is published from then on.
    pub proof fn law_no_cursor_no_replay(h: Self, cursor: RealtimeCursor)
        requires
            cursor.since_sequence is None,
            cursor.last_event_id is None,
        ensures
            replay_for(h.window(), cursor) == Seq::<RealtimeEvent>::empty(),
    {
    }
}

impl RealtimeHub<InMemoryRealtimeEventLog> {
    /// A hub that keeps up to `replay_capacity` events and logs to memory.
    pub fn new(replay_capacity: usize) -> (r: Self)
        ensures
            r.window() == Seq::<RealtimeEvent>::empty(),
            r.next_sequence_spec() == 1,
            r.capacity() == replay_capacity,
            r.log().entries() == Seq::<RealtimeEvent>::empty(),
            r.well_formed(),
    {
        RealtimeHub::with_event_log(replay_capacity, InMemoryRealtimeEventLog::new())
    }
}

} // verus!
