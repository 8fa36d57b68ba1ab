//! The event log: the append-only record of events that native
//! implementations have emitted, in the order in which they were recorded.

use vstd::prelude::*;

verus! {

/// One recorded event: identifier bytes, sequence number, runtime type,
/// serialization layout and value.
pub type EventRecord<T, L, V> = (Vec<u8>, u64, T, L, V);

/// `after` is `before` with one more event at its end, whose identifier is
/// `guid`.
pub open spec fn appends_guid<T, L, V>(
    before: Seq<EventRecord<T, L, V>>,
    after: Seq<EventRecord<T, L, V>>,
    guid: Seq<u8>,
) -> bool {
    &&& after.len() == before.len() + 1
    &&& after.drop_last() == before
    &&& after.last().0@ == guid
}

/// `after` is `before` with one more event at its end, made of the given
/// identifier, sequence number, type and value.
pub open spec fn is_appended<T, L, V>(
    before: Seq<EventRecord<T, L, V>>,
    after: Seq<EventRecord<T, L, V>>,
    guid: Seq<u8>,
    seq_num: u64,
    ty: T,
    val: V,
) -> bool {
    &&& appends_guid(before, after, guid)
    &&& after.last().1 == seq_num
    &&& after.last().2 == ty
    &&& after.last().4 == val
}

/// The identifiers of a sequence of events, in order.
pub open spec fn event_guids<T, L, V>(events: Seq<EventRecord<T, L, V>>) -> Seq<Seq<u8>> {
    events.map_values(|e: EventRecord<T, L, V>| e.0@)
}

/// Events recorded one after another appear in the log in the order in
/// which they were recorded, whatever they carry: when each log in `logs` is
/// the one before it with one event of identifier `guids[i]` appended, the
/// last log's identifiers are the first log's followed by `guids`.
pub proof fn lemma_events_in_call_order<T, L, V>(
    logs: Seq<Seq<EventRecord<T, L, V>>>,
    guids: Seq<Seq<u8>>,
)
    requires
        logs.len() == guids.len() + 1,
        forall|i: int| 0 <= i < guids.len() ==> appends_guid(#[trigger] logs[i], logs[i + 1], guids[i]),
    ensures
        event_guids(logs.last()) == event_guids(logs[0]) + guids,
    decreases guids.len(),
{
    if guids.len() == 0 {
        assert(guids =~= Seq::<Seq<u8>>::empty());
        assert(event_guids(logs[0]) + guids =~= event_guids(logs[0]));
    } else {
        let n = guids.len() as int;
        let lp = logs.drop_last();
        let gp = guids.drop_last();
        assert forall|i: int| 0 <= i < gp.len() implies appends_guid(#[trigger] lp[i], lp[i + 1], gp[i]) by {
            assert(appends_guid(logs[i], logs[i + 1], guids[i]));
        }
        lemma_events_in_call_order(lp, gp);
        assert(appends_guid(logs[n - 1], logs[n], guids[n - 1]));
        let before = logs[n - 1];
        let after = logs[n];
        assert(event_guids(after) =~= event_guids(before).push(guids[n - 1])) by {
            assert forall|k: int| 0 <= k < before.len() implies after[k] == before[k] by {
                assert(after.drop_last()[k] == after[k]);
            }
        }
        assert(event_guids(logs[0]) + guids =~= (event_guids(logs[0]) + gp).push(guids[n - 1]));
    }
}

/// An append-only log of events.
pub struct EventLog<T, L, V> {
    events: Vec<EventRecord<T, L, V>>,
}

impl<T, L, V> View for EventLog<T, L, V> {
    type V = Seq<EventRecord<T, L, V>>;

    closed spec fn view(&self) -> Seq<EventRecord<T, L, V>> {
        self.events@
    }
}

impl<T, L, V> EventLog<T, L, V> {
    /// A log with no events.
    pub fn new() -> (r: EventLog<T, L, V>)
        ensures
            r@ == Seq::<EventRecord<T, L, V>>::empty(),
    {
        EventLog { events: Vec::new() }
    }

    /// The events recorded so far, oldest first.
    pub fn events(&self) -> (r: &Vec<EventRecord<T, L, V>>)
        ensures
            r@ == self@,
    {
        &self.events
    }

    /// Adds an event at the end of the log.
    pub(crate) fn append(&mut self, guid: Vec<u8>, seq_num: u64, ty: T, layout: L, val: V)
        ensures
            is_appended(old(self)@, final(self)@, guid@, seq_num, ty, val),
            final(self)@.last().3 == layout,
    {
        self.events.push((guid, seq_num, ty, layout, val));
        assert(self.events@.drop_last() =~= old(self).events@);
    }
}

} // verus!
