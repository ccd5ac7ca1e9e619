use vstd::prelude::*;

verus! {

/// The number of connections that are open to workers. It starts out
/// unset; reading it or opening a connection sets it, from zero. Like an
/// atomic integer, it wraps around at the ends of `i64`.
pub struct ConnectionCounter {
    count: Option<i64>,
}

impl View for ConnectionCounter {
    type V = Option<i64>;

    open spec fn view(&self) -> Option<i64> {
        self.spec_count()
    }
}

impl ConnectionCounter {
    pub closed spec fn spec_count(&self) -> Option<i64> {
        self.count
    }

    /// A counter that has not been set yet.
    pub fn new() -> (c: Self)
        ensures
            c@ is None,
    {
        ConnectionCounter { count: None }
    }

    /// Whether the counter has been set.
    pub fn is_set(&self) -> (r: bool)
        ensures
            r == self@ is Some,
    {
        self.count.is_some()
    }
}

/// The value a counter reads: zero while it is unset.
pub open spec fn counted(c: Option<i64>) -> i64 {
    match c {
        Some(n) => n,
        None => 0,
    }
}

/// Something that happens to the counter.
#[derive(Clone, Copy, PartialEq, Eq, Structural, Debug)]
pub enum ConnectionEvent {
    /// `add_connection`.
    Opened,
    /// `remove_connection`.
    Closed,
    /// `current_connections`.
    Read,
}

/// The counter after an event: opening adds one and closing takes one
/// away (both wrapping around like an atomic integer); reading sets an
/// unset counter to zero. Every event leaves the counter set.
pub open spec fn after_event(c: Option<i64>, e: ConnectionEvent) -> Option<i64> {
    match e {
        ConnectionEvent::Opened => Some(counted(c).wrapping_add(1)),
        ConnectionEvent::Closed => Some(counted(c).wrapping_sub(1)),
        ConnectionEvent::Read => Some(counted(c)),
    }
}

/// The counter after a run of events, in order.
pub open spec fn after_events(c: Option<i64>, events: Seq<ConnectionEvent>) -> Option<i64>
    decreases events.len(),
{
    if events.len() == 0 {
        c
    } else {
        after_event(after_events(c, events.drop_last()), events.last())
    }
}

/// Connections opened minus connections closed in a run of events.
pub open spec fn balance(events: Seq<ConnectionEvent>) -> int
    decreases events.len(),
{
    if events.len() == 0 {
        0
    } else {
        balance(events.drop_last()) + match events.last() {
            ConnectionEvent::Opened => 1int,
            ConnectionEvent::Closed => -1int,
            ConnectionEvent::Read => 0int,
        }
    }
}

/// Records that a connection opened: one more, setting the counter from
/// zero where it was unset.
pub fn add_connection(counter: &mut ConnectionCounter)
    ensures
        final(counter)@ == Some(counted(old(counter)@).wrapping_add(1)),
        final(counter)@ == after_event(old(counter)@, ConnectionEvent::Opened),
{
    let n = match counter.count {
        Some(n) => n,
        None => 0,
    };
    counter.count = Some(n.wrapping_add(1));
}

/// Records that a connection closed: one less. The counter must have been
/// set before.
pub fn remove_connection(counter: &mut ConnectionCounter)
    requires
        old(counter)@ is Some,
    ensures
        final(counter)@ == Some(old(counter)@->0.wrapping_sub(1)),
        final(counter)@ == after_event(old(counter)@, ConnectionEvent::Closed),
{
    match counter.count {
        Some(n) => {
            counter.count = Some(n.wrapping_sub(1));
        },
        None => {},
    }
}

/// The number of open connections; reading it sets the counter, from zero
/// where it was unset.
pub fn current_connections(counter: &mut ConnectionCounter) -> (n: i64)
    ensures
        n == counted(old(counter)@),
        final(counter)@ == Some(n),
        final(counter)@ == after_event(old(counter)@, ConnectionEvent::Read),
{
    let n = match counter.count {
        Some(n) => n,
        None => 0,
    };
    counter.count = Some(n);
    n
}

/// A graceful shutdown may finish once no connection is open.
pub fn may_finish_shutdown(open_connections: i64) -> (r: bool)
    ensures
        r == (open_connections <= 0),
{
    open_connections <= 0
}

/// Opening a connection and closing it again leaves the counter set to the
/// value it read before.
pub proof fn lemma_add_then_remove(before: Option<i64>, added: Option<i64>, removed: Option<i64>)
    requires
        added == Some(counted(before).wrapping_add(1)),
        removed == Some(added->0.wrapping_sub(1)),
    ensures
        removed == Some(counted(before)),
{
    let n = counted(before);
    assert(n.wrapping_add(1).wrapping_sub(1) == n) by (bit_vector);
}

/// From a fresh counter, after any run of events in which no connection
/// closes before the first event, the count is the number of connections
/// opened minus the number closed, as long as that difference stays within
/// `i64` along the way (beyond it the counter wraps around).
pub proof fn lemma_count_is_opened_minus_closed(events: Seq<ConnectionEvent>)
    requires
        events.len() > 0 ==> events[0] != ConnectionEvent::Closed,
        forall|k: int|
            0 < k <= events.len() ==> i64::MIN <= #[trigger] balance(events.take(k)) <= i64::MAX,
    ensures
        counted(after_events(None, events)) == balance(events),
        events.len() > 0 ==> after_events(None, events) is Some,
    decreases events.len(),
{
    if events.len() > 0 {
        let prev = events.drop_last();
        assert forall|k: int| 0 < k <= prev.len() implies i64::MIN <= #[trigger] balance(prev.take(k))
            <= i64::MAX by {
            assert(prev.take(k) =~= events.take(k));
        }
        if prev.len() > 0 {
            assert(prev[0] == events[0]);
        }
        lemma_count_is_opened_minus_closed(prev);
        assert(events.take(events.len() as int) =~= events);
        assert(i64::MIN <= balance(events.take(events.len() as int)) <= i64::MAX);
        if prev.len() == 0 {
            assert(events.last() == events[0]);
        }
    }
}

/// Reading the count changes nothing that a second read would see.
pub proof fn lemma_read_is_stable(c: Option<i64>)
    ensures
        after_event(after_event(c, ConnectionEvent::Read), ConnectionEvent::Read) == after_event(
            c,
            ConnectionEvent::Read,
        ),
        counted(after_event(c, ConnectionEvent::Read)) == counted(c),
{
}

} // verus!
