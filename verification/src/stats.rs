//! Liveness statistics: counters of what the adapter did, their difference
//! between two snapshots, and the periodic summary line.
use vstd::prelude::*;
use crate::text::{decimal, digit_char, push_char, push_decimal, digit};

verus! {

#[verifier::external_type_specification]
#[verifier::external_body]
pub struct ExInstant(std::time::Instant);

/// `Instant::now`: the current time; nothing is promised of its value.
#[verifier::external_body]
fn now() -> std::time::Instant {
    std::time::Instant::now()
}

/// `Instant::elapsed`: the time since `start`; nothing is promised of it.
#[verifier::external_body]
fn elapsed(start: &std::time::Instant) -> std::time::Duration {
    start.elapsed()
}

/// `Duration::as_secs`; a duration is opaque here, so nothing is promised.
#[verifier::external_body]
fn whole_seconds(duration: &std::time::Duration) -> u64 {
    duration.as_secs()
}

/// The counters as plain values.
pub struct Counts {
    pub successful_cycles: u64,
    pub mqtt_messages_sent: u64,
    pub recoveries: u64,
    pub source_bytes_read: u64,
    pub source_bytes_written: u64,
    pub source_frames_read: u64,
    pub source_frames_written: u64,
    pub source_timeouts: u64,
    pub source_errors: u64,
}

/// One counted thing, as recorded.
pub enum StatsEvent {
    SuccessfulCycle,
    MqttMessageSent,
    Recovery,
    /// A frame of that many bytes read from the battery bridge.
    SourceRead(usize),
    /// A frame of that many bytes written to the battery bridge.
    SourceWrite(usize),
    SourceTimeout,
    SourceError,
}

/// What an event adds to counter `k`, the counters numbered in the order of
/// `Counts` from 0.
pub open spec fn amount(e: StatsEvent, k: int) -> nat {
    match e {
        StatsEvent::SuccessfulCycle => if k == 0 { 1 } else { 0 },
        StatsEvent::MqttMessageSent => if k == 1 { 1 } else { 0 },
        StatsEvent::Recovery => if k == 2 { 1 } else { 0 },
        StatsEvent::SourceRead(n) => if k == 3 { n as nat } else if k == 5 { 1 } else { 0 },
        StatsEvent::SourceWrite(n) => if k == 4 { n as nat } else if k == 6 { 1 } else { 0 },
        StatsEvent::SourceTimeout => if k == 7 { 1 } else { 0 },
        StatsEvent::SourceError => if k == 8 { 1 } else { 0 },
    }
}

/// The unbounded total of counter `k` over a history of events: how many
/// of the counted things happened, or for the byte counters the sum of
/// their sizes.
pub open spec fn total(events: Seq<StatsEvent>, k: int) -> nat
    decreases events.len(),
{
    if events.len() == 0 {
        0
    } else {
        total(events.drop_last(), k) + amount(events.last(), k)
    }
}

/// `t` modulo 2^64.
pub open spec fn wrapped(t: nat) -> u64 {
    (t % 0x1_0000_0000_0000_0000) as u64
}

/// The counters that a history of events leaves: each total modulo 2^64.
pub open spec fn counts_of(events: Seq<StatsEvent>) -> Counts {
    Counts {
        successful_cycles: wrapped(total(events, 0)),
        mqtt_messages_sent: wrapped(total(events, 1)),
        recoveries: wrapped(total(events, 2)),
        source_bytes_read: wrapped(total(events, 3)),
        source_bytes_written: wrapped(total(events, 4)),
        source_frames_read: wrapped(total(events, 5)),
        source_frames_written: wrapped(total(events, 6)),
        source_timeouts: wrapped(total(events, 7)),
        source_errors: wrapped(total(events, 8)),
    }
}

/// The adapter's running counters; each wraps around at 2^64.
pub struct RuntimeStats {
    /// Everything recorded since the statistics were made.
    events: Ghost<Seq<StatsEvent>>,
    started_at: std::time::Instant,
    successful_cycles: u64,
    mqtt_messages_sent: u64,
    recoveries: u64,
    source_bytes_read: u64,
    source_bytes_written: u64,
    source_frames_read: u64,
    source_frames_written: u64,
    source_timeouts: u64,
    source_errors: u64,
}

/// The counters at one moment, and the whole seconds since the start.
#[derive(Debug, Clone, Copy, PartialEq, Eq)]
pub struct StatsSnapshot {
    pub uptime_secs: u64,
    pub successful_cycles: u64,
    pub mqtt_messages_sent: u64,
    pub recoveries: u64,
    pub source_bytes_read: u64,
    pub source_bytes_written: u64,
    pub source_frames_read: u64,
    pub source_frames_written: u64,
    pub source_timeouts: u64,
    pub source_errors: u64,
}

/// How much each counter grew between two snapshots.
#[derive(Debug, Clone, Copy, PartialEq, Eq)]
pub struct StatsDelta {
    pub successful_cycles: u64,
    pub mqtt_messages_sent: u64,
    pub recoveries: u64,
    pub source_bytes_read: u64,
    pub source_bytes_written: u64,
    pub source_frames_read: u64,
    pub source_frames_written: u64,
    pub source_timeouts: u64,
    pub source_errors: u64,
}

impl View for RuntimeStats {
    type V = Counts;

    closed spec fn view(&self) -> Counts {
        Counts {
            successful_cycles: self.successful_cycles,
            mqtt_messages_sent: self.mqtt_messages_sent,
            recoveries: self.recoveries,
            source_bytes_read: self.source_bytes_read,
            source_bytes_written: self.source_bytes_written,
            source_frames_read: self.source_frames_read,
            source_frames_written: self.source_frames_written,
            source_timeouts: self.source_timeouts,
            source_errors: self.source_errors,
        }
    }
}

/// `a + b` modulo 2^64.
pub open spec fn wrap_add(a: u64, b: int) -> u64 {
    ((a + b) % 0x1_0000_0000_0000_0000) as u64
}

/// The counters after one more of the counted thing.
pub open spec fn counts_with(c: Counts, successful_cycles: int, mqtt_messages_sent: int, recoveries: int, source_bytes_read: int, source_bytes_written: int, source_frames_read: int, source_frames_written: int, source_timeouts: int, source_errors: int) -> Counts {
    Counts {
        successful_cycles: wrap_add(c.successful_cycles, successful_cycles),
        mqtt_messages_sent: wrap_add(c.mqtt_messages_sent, mqtt_messages_sent),
        recoveries: wrap_add(c.recoveries, recoveries),
        source_bytes_read: wrap_add(c.source_bytes_read, source_bytes_read),
        source_bytes_written: wrap_add(c.source_bytes_written, source_bytes_written),
        source_frames_read: wrap_add(c.source_frames_read, source_frames_read),
        source_frames_written: wrap_add(c.source_frames_written, source_frames_written),
        source_timeouts: wrap_add(c.source_timeouts, source_timeouts),
        source_errors: wrap_add(c.source_errors, source_errors),
    }
}

pub open spec fn zero_counts() -> Counts {
    Counts {
        successful_cycles: 0,
        mqtt_messages_sent: 0,
        recoveries: 0,
        source_bytes_read: 0,
        source_bytes_written: 0,
        source_frames_read: 0,
        source_frames_written: 0,
        source_timeouts: 0,
        source_errors: 0,
    }
}

impl RuntimeStats {
    /// The counters are what the recorded events add up to.
    #[verifier::type_invariant]
    spec fn counts_follow_events(&self) -> bool {
        self@ == counts_of(self.events@)
    }

    /// Everything recorded so far, in order.
    pub closed spec fn events(&self) -> Seq<StatsEvent> {
        self.events@
    }

    /// Fresh statistics, all counters zero, started now. The caller shares
    /// them between the threads that count.
    pub fn new_shared() -> (res: Self)
        ensures
            res@ == zero_counts(),
            res.events() == Seq::<StatsEvent>::empty(),
    {
        RuntimeStats {
            events: Ghost(Seq::empty()),
            started_at: now(),
            successful_cycles: 0,
            mqtt_messages_sent: 0,
            recoveries: 0,
            source_bytes_read: 0,
            source_bytes_written: 0,
            source_frames_read: 0,
            source_frames_written: 0,
            source_timeouts: 0,
            source_errors: 0,
        }
    }

    /// The counters now, with the uptime in whole seconds.
    pub fn snapshot(&self) -> (res: StatsSnapshot)
        ensures
            res.successful_cycles == self@.successful_cycles,
            res.mqtt_messages_sent == self@.mqtt_messages_sent,
            res.recoveries == self@.recoveries,
            res.source_bytes_read == self@.source_bytes_read,
            res.source_bytes_written == self@.source_bytes_written,
            res.source_frames_read == self@.source_frames_read,
            res.source_frames_written == self@.source_frames_written,
            res.source_timeouts == self@.source_timeouts,
            res.source_errors == self@.source_errors,
            self@ == counts_of(self.events()),
    {
        proof {
            use_type_invariant(self);
        }
        let uptime = elapsed(&self.started_at);
        StatsSnapshot {
            uptime_secs: whole_seconds(&uptime),
            successful_cycles: self.successful_cycles,
            mqtt_messages_sent: self.mqtt_messages_sent,
            recoveries: self.recoveries,
            source_bytes_read: self.source_bytes_read,
            source_bytes_written: self.source_bytes_written,
            source_frames_read: self.source_frames_read,
            source_frames_written: self.source_frames_written,
            source_timeouts: self.source_timeouts,
            source_errors: self.source_errors,
        }
    }

    /// Records `event`, whose amounts for the nine counters are the other
    /// arguments.
    fn add_event(
        &mut self,
        Ghost(event): Ghost<StatsEvent>,
        d0: u64,
        d1: u64,
        d2: u64,
        d3: u64,
        d4: u64,
        d5: u64,
        d6: u64,
        d7: u64,
        d8: u64,
    )
        requires
            d0 == amount(event, 0),
            d1 == amount(event, 1),
            d2 == amount(event, 2),
            d3 == amount(event, 3),
            d4 == amount(event, 4),
            d5 == amount(event, 5),
            d6 == amount(event, 6),
            d7 == amount(event, 7),
            d8 == amount(event, 8),
        ensures
            final(self)@ == counts_with(old(self)@, d0 as int, d1 as int, d2 as int, d3 as int, d4 as int, d5 as int, d6 as int, d7 as int, d8 as int),
            final(self).events() == old(self).events().push(event),
            final(self)@ == counts_of(final(self).events()),
    {
        proof {
            use_type_invariant(&*self);
        }
        let ghost events = self.events@.push(event);
        proof {
            lemma_total_push(self.events@, event);
            lemma_wrap_step(total(self.events@, 0), d0 as nat);
            lemma_wrap_step(total(self.events@, 1), d1 as nat);
            lemma_wrap_step(total(self.events@, 2), d2 as nat);
            lemma_wrap_step(total(self.events@, 3), d3 as nat);
            lemma_wrap_step(total(self.events@, 4), d4 as nat);
            lemma_wrap_step(total(self.events@, 5), d5 as nat);
            lemma_wrap_step(total(self.events@, 6), d6 as nat);
            lemma_wrap_step(total(self.events@, 7), d7 as nat);
            lemma_wrap_step(total(self.events@, 8), d8 as nat);
        }
        *self = RuntimeStats {
            events: Ghost(events),
            started_at: self.started_at,
            successful_cycles: self.successful_cycles.wrapping_add(d0),
            mqtt_messages_sent: self.mqtt_messages_sent.wrapping_add(d1),
            recoveries: self.recoveries.wrapping_add(d2),
            source_bytes_read: self.source_bytes_read.wrapping_add(d3),
            source_bytes_written: self.source_bytes_written.wrapping_add(d4),
            source_frames_read: self.source_frames_read.wrapping_add(d5),
            source_frames_written: self.source_frames_written.wrapping_add(d6),
            source_timeouts: self.source_timeouts.wrapping_add(d7),
            source_errors: self.source_errors.wrapping_add(d8),
        };
    }

    pub fn record_successful_cycle(&mut self)
        ensures
            final(self)@ == counts_with(old(self)@, 1, 0, 0, 0, 0, 0, 0, 0, 0),
            final(self).events() == old(self).events().push(StatsEvent::SuccessfulCycle),
            final(self)@ == counts_of(final(self).events()),
    {
        self.add_event(Ghost(StatsEvent::SuccessfulCycle), 1, 0, 0, 0, 0, 0, 0, 0, 0);
    }

    pub fn record_mqtt_message_sent(&mut self)
        ensures
            final(self)@ == counts_with(old(self)@, 0, 1, 0, 0, 0, 0, 0, 0, 0),
            final(self).events() == old(self).events().push(StatsEvent::MqttMessageSent),
            final(self)@ == counts_of(final(self).events()),
    {
        self.add_event(Ghost(StatsEvent::MqttMessageSent), 0, 1, 0, 0, 0, 0, 0, 0, 0);
    }

    pub fn record_recovery(&mut self)
        ensures
            final(self)@ == counts_with(old(self)@, 0, 0, 1, 0, 0, 0, 0, 0, 0),
            final(self).events() == old(self).events().push(StatsEvent::Recovery),
            final(self)@ == counts_of(final(self).events()),
    {
        self.add_event(Ghost(StatsEvent::Recovery), 0, 0, 1, 0, 0, 0, 0, 0, 0);
    }

    /// One frame of `bytes` bytes written to the battery bridge.
    pub fn record_source_write(&mut self, bytes: usize)
        ensures
            final(self)@ == counts_with(old(self)@, 0, 0, 0, 0, bytes as int, 0, 1, 0, 0),
            final(self).events() == old(self).events().push(StatsEvent::SourceWrite(bytes)),
            final(self)@ == counts_of(final(self).events()),
    {
        self.add_event(Ghost(StatsEvent::SourceWrite(bytes)), 0, 0, 0, 0, bytes as u64, 0, 1, 0, 0);
    }

    /// One frame of `bytes` bytes read from the battery bridge.
    pub fn record_source_read(&mut self, bytes: usize)
        ensures
            final(self)@ == counts_with(old(self)@, 0, 0, 0, bytes as int, 0, 1, 0, 0, 0),
            final(self).events() == old(self).events().push(StatsEvent::SourceRead(bytes)),
            final(self)@ == counts_of(final(self).events()),
    {
        self.add_event(Ghost(StatsEvent::SourceRead(bytes)), 0, 0, 0, bytes as u64, 0, 1, 0, 0, 0);
    }

    pub fn record_source_timeout(&mut self)
        ensures
            final(self)@ == counts_with(old(self)@, 0, 0, 0, 0, 0, 0, 0, 1, 0),
            final(self).events() == old(self).events().push(StatsEvent::SourceTimeout),
            final(self)@ == counts_of(final(self).events()),
    {
        self.add_event(Ghost(StatsEvent::SourceTimeout), 0, 0, 0, 0, 0, 0, 0, 1, 0);
    }

    pub fn record_source_error(&mut self)
        ensures
            final(self)@ == counts_with(old(self)@, 0, 0, 0, 0, 0, 0, 0, 0, 1),
            final(self).events() == old(self).events().push(StatsEvent::SourceError),
            final(self)@ == counts_of(final(self).events()),
    {
        self.add_event(Ghost(StatsEvent::SourceError), 0, 0, 0, 0, 0, 0, 0, 0, 1);
    }
}

proof fn lemma_total_push(events: Seq<StatsEvent>, e: StatsEvent)
    ensures
        forall|k: int| #[trigger] total(events.push(e), k) == total(events, k) + amount(e, k),
{
    assert(events.push(e).drop_last() =~= events);
}

proof fn lemma_wrap_step(t: nat, a: nat)
    requires
        a < 0x1_0000_0000_0000_0000,
    ensures
        wrap_add(wrapped(t), a as int) == wrapped(t + a),
{
    vstd::arithmetic::div_mod::lemma_add_mod_noop(t as int, a as int, 0x1_0000_0000_0000_0000);
    vstd::arithmetic::div_mod::lemma_small_mod(a, 0x1_0000_0000_0000_0000);
    vstd::arithmetic::div_mod::lemma_mod_twice(t as int, 0x1_0000_0000_0000_0000);
}

/// The totals of a history are the totals of its two parts added: what was
/// recorded later adds to what was recorded before, and nothing is lost.
pub proof fn lemma_counts_tally(events: Seq<StatsEvent>, more: Seq<StatsEvent>, k: int)
    ensures
        total(events + more, k) == total(events, k) + total(more, k),
    decreases more.len(),
{
    if more.len() == 0 {
        assert(events + more =~= events);
    } else {
        lemma_counts_tally(events, more.drop_last(), k);
        assert((events + more).drop_last() =~= events + more.drop_last());
    }
}

/// `k` records of the same event add `k` times its amounts: after `k` calls
/// of one `record_*`, each counter it touches has grown by `k` (for the byte
/// counters, `k` times the bytes), modulo 2^64, and the others are as they
/// were.
pub proof fn lemma_repeated_event(events: Seq<StatsEvent>, more: Seq<StatsEvent>, e: StatsEvent)
    requires
        forall|i: int| 0 <= i < more.len() ==> more[i] == e,
    ensures
        forall|k: int| #[trigger] total(events + more, k) == total(events, k) + more.len() * amount(e, k),
{
    assert forall|k: int| #[trigger] total(events + more, k) == total(events, k) + more.len() * amount(e, k) by {
        lemma_counts_tally(events, more, k);
        lemma_same_events_total(more, e, k);
    }
}

/// After `k` calls of one `record_*`, following a snapshot of the counters,
/// each counter has moved by `k` times that call's amount, modulo 2^64:
/// nothing is lost and nothing else moves.
pub proof fn lemma_repeated_record(events: Seq<StatsEvent>, more: Seq<StatsEvent>, e: StatsEvent)
    requires
        forall|i: int| 0 <= i < more.len() ==> more[i] == e,
    ensures
        counts_of(events + more) == counts_with(
            counts_of(events),
            (more.len() * amount(e, 0)) as int,
            (more.len() * amount(e, 1)) as int,
            (more.len() * amount(e, 2)) as int,
            (more.len() * amount(e, 3)) as int,
            (more.len() * amount(e, 4)) as int,
            (more.len() * amount(e, 5)) as int,
            (more.len() * amount(e, 6)) as int,
            (more.len() * amount(e, 7)) as int,
            (more.len() * amount(e, 8)) as int,
        ),
{
    lemma_repeated_event(events, more, e);
    assert forall|k: int| 0 <= k < 9 implies wrap_add(wrapped(total(events, k)), (more.len() * amount(e, k)) as int)
        == wrapped(#[trigger] total(events + more, k)) by {
        assert(more.len() * amount(e, k) >= 0) by (nonlinear_arith);
        lemma_wrap_add_any(total(events, k), (more.len() * amount(e, k)) as nat);
    }
    assert(wrap_add(wrapped(total(events, 0)), (more.len() * amount(e, 0)) as int) == wrapped(total(events + more, 0)));
    assert(wrap_add(wrapped(total(events, 1)), (more.len() * amount(e, 1)) as int) == wrapped(total(events + more, 1)));
    assert(wrap_add(wrapped(total(events, 2)), (more.len() * amount(e, 2)) as int) == wrapped(total(events + more, 2)));
    assert(wrap_add(wrapped(total(events, 3)), (more.len() * amount(e, 3)) as int) == wrapped(total(events + more, 3)));
    assert(wrap_add(wrapped(total(events, 4)), (more.len() * amount(e, 4)) as int) == wrapped(total(events + more, 4)));
    assert(wrap_add(wrapped(total(events, 5)), (more.len() * amount(e, 5)) as int) == wrapped(total(events + more, 5)));
    assert(wrap_add(wrapped(total(events, 6)), (more.len() * amount(e, 6)) as int) == wrapped(total(events + more, 6)));
    assert(wrap_add(wrapped(total(events, 7)), (more.len() * amount(e, 7)) as int) == wrapped(total(events + more, 7)));
    assert(wrap_add(wrapped(total(events, 8)), (more.len() * amount(e, 8)) as int) == wrapped(total(events + more, 8)));
}

proof fn lemma_wrap_add_any(t: nat, a: nat)
    ensures
        wrap_add(wrapped(t), a as int) == wrapped(t + a),
{
    vstd::arithmetic::div_mod::lemma_add_mod_noop(t as int, a as int, 0x1_0000_0000_0000_0000);
    vstd::arithmetic::div_mod::lemma_add_mod_noop((t % 0x1_0000_0000_0000_0000) as int, a as int, 0x1_0000_0000_0000_0000);
    vstd::arithmetic::div_mod::lemma_mod_twice(t as int, 0x1_0000_0000_0000_0000);
}

proof fn lemma_same_events_total(more: Seq<StatsEvent>, e: StatsEvent, k: int)
    requires
        forall|i: int| 0 <= i < more.len() ==> more[i] == e,
    ensures
        total(more, k) == more.len() * amount(e, k),
    decreases more.len(),
{
    if more.len() > 0 {
        let p = more.drop_last();
        assert forall|i: int| 0 <= i < p.len() implies p[i] == e by {
            assert(p[i] == more[i]);
        }
        lemma_same_events_total(p, e, k);
        assert(more.len() * amount(e, k) == p.len() * amount(e, k) + amount(e, k)) by (nonlinear_arith)
            requires
                more.len() == p.len() + 1,
        ;
    }
}

/// Every counter of `later` is at least that of `earlier`.
pub open spec fn dominates(later: StatsSnapshot, earlier: StatsSnapshot) -> bool {
    &&& later.successful_cycles >= earlier.successful_cycles
    &&& later.mqtt_messages_sent >= earlier.mqtt_messages_sent
    &&& later.recoveries >= earlier.recoveries
    &&& later.source_bytes_read >= earlier.source_bytes_read
    &&& later.source_bytes_written >= earlier.source_bytes_written
    &&& later.source_frames_read >= earlier.source_frames_read
    &&& later.source_frames_written >= earlier.source_frames_written
    &&& later.source_timeouts >= earlier.source_timeouts
    &&& later.source_errors >= earlier.source_errors
}

impl StatsSnapshot {
    /// How far each counter moved since `previous`, an earlier snapshot of the
    /// same statistics.
    pub fn delta_from(&self, previous: &Self) -> (res: StatsDelta)
        requires
            dominates(*self, *previous),
        ensures
            res.successful_cycles == self.successful_cycles - previous.successful_cycles,
            res.mqtt_messages_sent == self.mqtt_messages_sent - previous.mqtt_messages_sent,
            res.recoveries == self.recoveries - previous.recoveries,
            res.source_bytes_read == self.source_bytes_read - previous.source_bytes_read,
            res.source_bytes_written == self.source_bytes_written - previous.source_bytes_written,
            res.source_frames_read == self.source_frames_read - previous.source_frames_read,
            res.source_frames_written == self.source_frames_written - previous.source_frames_written,
            res.source_timeouts == self.source_timeouts - previous.source_timeouts,
            res.source_errors == self.source_errors - previous.source_errors,
    {
        StatsDelta {
            successful_cycles: self.successful_cycles - previous.successful_cycles,
            mqtt_messages_sent: self.mqtt_messages_sent - previous.mqtt_messages_sent,
            recoveries: self.recoveries - previous.recoveries,
            source_bytes_read: self.source_bytes_read - previous.source_bytes_read,
            source_bytes_written: self.source_bytes_written - previous.source_bytes_written,
            source_frames_read: self.source_frames_read - previous.source_frames_read,
            source_frames_written: self.source_frames_written - previous.source_frames_written,
            source_timeouts: self.source_timeouts - previous.source_timeouts,
            source_errors: self.source_errors - previous.source_errors,
        }
    }
}

/// A number with at least two digits.
pub open spec fn two_digits(n: nat) -> Seq<char> {
    if n < 10 {
        seq!['0'] + decimal(n)
    } else {
        decimal(n)
    }
}

/// "HH:MM:SS" for a number of seconds; the hours may take more digits.
pub open spec fn duration_text(total_seconds: nat) -> Seq<char> {
    two_digits(total_seconds / 3600) + ":"@ + two_digits((total_seconds % 3600) / 60) + ":"@ + two_digits(
        total_seconds % 60,
    )
}

fn push_two_digits(s: &mut String, n: u64)
    ensures
        final(s)@ == old(s)@ + two_digits(n as nat),
{
    if n < 10 {
        push_char(s, '0');
    }
    push_decimal(s, n);
}

pub fn format_duration(total_seconds: u64) -> (res: String)
    ensures
        res@ == duration_text(total_seconds as nat),
{
    let hours = total_seconds / 3600;
    let minutes = (total_seconds % 3600) / 60;
    let seconds = total_seconds % 60;
    let mut res = String::new();
    push_two_digits(&mut res, hours);
    res.append(":");
    push_two_digits(&mut res, minutes);
    res.append(":");
    push_two_digits(&mut res, seconds);
    res
}

pub open spec fn pow2k(k: nat) -> nat
    decreases k,
{
    if k == 0 {
        1
    } else {
        2 * pow2k((k - 1) as nat)
    }
}

/// How many low bits of `n` do not fit a double's 53 bit significand.
pub open spec fn excess_bits(n: nat) -> nat
    decreases n,
{
    if n < 0x20_0000_0000_0000 {
        0
    } else {
        1 + excess_bits(n / 2)
    }
}

/// The double nearest to `n`, ties to even (what `n as f64` gives).
pub open spec fn nearest_double(n: nat) -> nat {
    let p = pow2k(excess_bits(n));
    let q = n / p;
    let r = n % p;
    if 2 * r > p || (2 * r == p && q % 2 == 1) {
        (q + 1) * p
    } else {
        q * p
    }
}

/// `v / unit` in tenths, rounded to nearest with ties to even.
pub open spec fn rounded_tenths(v: nat, unit: nat) -> nat {
    let t = 10 * v / unit;
    let r = 10 * v % unit;
    if 2 * r > unit || (2 * r == unit && t % 2 == 1) {
        t + 1
    } else {
        t
    }
}

/// A count of tenths with one decimal ("12.5").
pub open spec fn one_decimal(tenths: nat) -> Seq<char> {
    decimal(tenths / 10) + "."@ + seq![digit_char(tenths % 10)]
}

/// A byte count for humans: bytes below 1 KiB, then KiB below 1 MiB, then
/// MiB, with one decimal.
pub open spec fn bytes_text(bytes: nat) -> Seq<char> {
    if bytes < 1024 {
        decimal(bytes) + "B"@
    } else if nearest_double(bytes) < 1048576 {
        one_decimal(rounded_tenths(nearest_double(bytes), 1024)) + "KiB"@
    } else {
        one_decimal(rounded_tenths(nearest_double(bytes), 1048576)) + "MiB"@
    }
}

/// `n` as the nearest double would hold it (an integer up to 2^64).
fn nearest_double_value(n: u64) -> (res: u128)
    ensures
        res as nat == nearest_double(n as nat),
        res <= 0x2_0000_0000_0000_0000,
{
    let mut q: u64 = n;
    let mut p: u128 = 1;
    let ghost mut k: nat = 0;
    while q >= 0x20_0000_0000_0000
        invariant
            p as nat == pow2k(k),
            q as nat == n as nat / pow2k(k),
            excess_bits(n as nat) == k + excess_bits(q as nat),
            p * q <= n,
            1 <= p <= 4096,
        decreases q,
    {
        proof {
            assert(pow2k(k + 1) == 2 * pow2k(k));
            vstd::arithmetic::div_mod::lemma_div_denominator(n as int, pow2k(k) as int, 2);
            assert(p < 2048) by (nonlinear_arith)
                requires
                    p * q <= n,
                    q >= 0x20_0000_0000_0000,
                    n < 0x1_0000_0000_0000_0000,
            ;
            assert(2 * p * (q / 2) <= p * q) by (nonlinear_arith)
                requires
                    p >= 1,
            ;
        }
        q = q / 2;
        p = p * 2;
        proof {
            k = k + 1;
        }
    }
    proof {
        vstd::arithmetic::div_mod::lemma_fundamental_div_mod(n as int, p as int);
        assert(p * q == q * p) by (nonlinear_arith);
    }
    let r: u128 = n as u128 - p * (q as u128);
    assert((q + 1) * p <= 0x20_0000_0000_0000 * 4096) by (nonlinear_arith)
        requires
            q < 0x20_0000_0000_0000,
            p <= 4096,
    ;
    let rounded: u128 = if 2 * r > p || (2 * r == p && q % 2 == 1) {
        (q as u128 + 1) * p
    } else {
        (q as u128) * p
    };
    assert(q * p <= (q + 1) * p) by (nonlinear_arith);
    rounded
}

/// Appends `v / unit` with one decimal, rounded to nearest, ties to even.
fn push_one_decimal(s: &mut String, v: u128, unit: u128)
    requires
        v <= 0x2_0000_0000_0000_0000,
        1024 <= unit <= 1048576,
    ensures
        final(s)@ == old(s)@ + one_decimal(rounded_tenths(v as nat, unit as nat)),
{
    let t: u128 = 10 * v / unit;
    let r: u128 = 10 * v % unit;
    let tenths: u128 = if 2 * r > unit || (2 * r == unit && t % 2 == 1) {
        t + 1
    } else {
        t
    };
    assert(t <= 10 * v / 1024) by {
        vstd::arithmetic::div_mod::lemma_div_is_ordered_by_denominator(10 * v as int, 1024, unit as int);
    }
    push_decimal(s, (tenths / 10) as u64);
    s.append(".");
    push_char(s, digit((tenths % 10) as u64));
}

/// A byte count for humans.
pub fn format_bytes(bytes: u64) -> (res: String)
    ensures
        res@ == bytes_text(bytes as nat),
{
    let mut res = String::new();
    if bytes < 1024 {
        push_decimal(&mut res, bytes);
        res.append("B");
        return res;
    }
    let v = nearest_double_value(bytes);
    if v < 1048576 {
        push_one_decimal(&mut res, v, 1024);
        res.append("KiB");
    } else {
        push_one_decimal(&mut res, v, 1048576);
        res.append("MiB");
    }
    res
}

/// The periodic liveness line: totals, and in brackets the growth since the
/// previous line.
pub open spec fn summary_text(s: StatsSnapshot, d: StatsDelta) -> Seq<char> {
    "alive: uptime="@ + duration_text(s.uptime_secs as nat) + " cycles="@ + decimal(s.successful_cycles as nat)
        + " (+"@ + decimal(d.successful_cycles as nat) + ") mqtt_messages="@ + decimal(s.mqtt_messages_sent as nat)
        + " (+"@ + decimal(d.mqtt_messages_sent as nat) + ") recoveries="@ + decimal(s.recoveries as nat) + " (+"@
        + decimal(d.recoveries as nat) + ") source_rx="@ + bytes_text(s.source_bytes_read as nat) + " (+"@
        + bytes_text(d.source_bytes_read as nat) + ") source_tx="@ + bytes_text(s.source_bytes_written as nat)
        + " (+"@ + bytes_text(d.source_bytes_written as nat) + ") frames_rx="@ + decimal(
        s.source_frames_read as nat,
    ) + " (+"@ + decimal(d.source_frames_read as nat) + ") frames_tx="@ + decimal(s.source_frames_written as nat)
        + " (+"@ + decimal(d.source_frames_written as nat) + ") timeouts="@ + decimal(s.source_timeouts as nat)
        + " (+"@ + decimal(d.source_timeouts as nat) + ") source_errors="@ + decimal(s.source_errors as nat)
        + " (+"@ + decimal(d.source_errors as nat) + ")"@
}

pub fn format_summary(snapshot: &StatsSnapshot, delta: &StatsDelta) -> (res: String)
    ensures
        res@ == summary_text(*snapshot, *delta),
{
    let mut summary = String::from_str("alive: uptime=");
    let uptime = format_duration(snapshot.uptime_secs);
    summary.append(uptime.as_str());
    summary.append(" cycles=");
    push_decimal(&mut summary, snapshot.successful_cycles);
    summary.append(" (+");
    push_decimal(&mut summary, delta.successful_cycles);
    summary.append(") mqtt_messages=");
    push_decimal(&mut summary, snapshot.mqtt_messages_sent);
    summary.append(" (+");
    push_decimal(&mut summary, delta.mqtt_messages_sent);
    summary.append(") recoveries=");
    push_decimal(&mut summary, snapshot.recoveries);
    summary.append(" (+");
    push_decimal(&mut summary, delta.recoveries);
    summary.append(") source_rx=");
    let text = format_bytes(snapshot.source_bytes_read);
    summary.append(text.as_str());
    summary.append(" (+");
    let text = format_bytes(delta.source_bytes_read);
    summary.append(text.as_str());
    summary.append(") source_tx=");
    let text = format_bytes(snapshot.source_bytes_written);
    summary.append(text.as_str());
    summary.append(" (+");
    let text = format_bytes(delta.source_bytes_written);
    summary.append(text.as_str());
    summary.append(") frames_rx=");
    push_decimal(&mut summary, snapshot.source_frames_read);
    summary.append(" (+");
    push_decimal(&mut summary, delta.source_frames_read);
    summary.append(") frames_tx=");
    push_decimal(&mut summary, snapshot.source_frames_written);
    summary.append(" (+");
    push_decimal(&mut summary, delta.source_frames_written);
    summary.append(") timeouts=");
    push_decimal(&mut summary, snapshot.source_timeouts);
    summary.append(" (+");
    push_decimal(&mut summary, delta.source_timeouts);
    summary.append(") source_errors=");
    push_decimal(&mut summary, snapshot.source_errors);
    summary.append(" (+");
    push_decimal(&mut summary, delta.source_errors);
    summary.append(")");
    assert(summary@ =~= summary_text(*snapshot, *delta));
    summary
}

} // verus!
