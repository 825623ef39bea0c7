//! Consumption of the device's event feed: selecting which owned
//! destinations an event batch triggers, cursor bookkeeping for the
//! conditional fetch, and the no-re-delivery law of cursor-threaded fetching.

use vstd::prelude::*;

use crate::objects::{Event, EventTable, EventView};
use crate::registry::DestinationRegistry;
use crate::strutil::{contains_str, spec_contains, str_eq};

verus! {

/// Whether an event announces a front-panel scan request.
pub open spec fn spec_is_scan_event(e: EventView) -> bool {
    e.unqualified_event_category == "ScanEvent"@
}

/// Whether a payload references a walkup destination.
pub open spec fn spec_is_destination_payload(uri_type: Seq<char>) -> bool {
    uri_type == "wus:WalkupScanToCompDestination"@
}

/// Whether the event carries a destination payload whose resource URI
/// contains the id's textual form.
pub open spec fn spec_event_mentions(e: EventView, id: Seq<char>) -> bool {
    exists|k: int|
        0 <= k < e.payloads.len() && spec_is_destination_payload(
            #[trigger] e.payloads[k].resource_type,
        ) && spec_contains(e.payloads[k].resource_uri, id)
}

/// The first owned id, in registry order, that the event mentions.
pub open spec fn spec_first_match(e: EventView, owned: Seq<Seq<char>>) -> Option<Seq<char>>
    decreases owned.len(),
{
    if owned.len() == 0 {
        None
    } else if spec_event_mentions(e, owned[0]) {
        Some(owned[0])
    } else {
        spec_first_match(e, owned.subrange(1, owned.len() as int))
    }
}

/// The destinations a batch triggers: for each scan event in order, the
/// first owned id it mentions, if any.
pub open spec fn spec_triggers(events: Seq<EventView>, owned: Seq<Seq<char>>) -> Seq<Seq<char>>
    decreases events.len(),
{
    if events.len() == 0 {
        Seq::<Seq<char>>::empty()
    } else {
        let rest = spec_triggers(events.subrange(1, events.len() as int), owned);
        if spec_is_scan_event(events[0]) {
            match spec_first_match(events[0], owned) {
                Some(id) => Seq::<Seq<char>>::empty().push(id) + rest,
                None => rest,
            }
        } else {
            rest
        }
    }
}

/// Whether `event` carries a destination payload whose URI contains `id`.
fn event_mentions(event: &Event, id: &str) -> (r: bool)
    ensures
        r == spec_event_mentions(event@, id@),
{
    let n = event.payloads.len();
    let mut k: usize = 0;
    while k < n
        invariant
            n == event.payloads@.len(),
            k <= n,
            forall|j: int|
                0 <= j < k ==> !(spec_is_destination_payload(
                    #[trigger] event@.payloads[j].resource_type,
                ) && spec_contains(event@.payloads[j].resource_uri, id@)),
        decreases n - k,
    {
        let payload = &event.payloads[k];
        if str_eq(payload.resource_type.as_str(), "wus:WalkupScanToCompDestination") && contains_str(
            payload.resource_uri.as_str(),
            id,
        ) {
            proof {
                assert(event@.payloads[k as int] == event.payloads@[k as int]@);
                assert(spec_is_destination_payload(event@.payloads[k as int].resource_type)
                    && spec_contains(event@.payloads[k as int].resource_uri, id@));
            }
            return true;
        }
        k += 1;
    }
    false
}

/// The first owned id, in registry iteration order, that `event` mentions.
fn first_match(event: &Event, registry: &DestinationRegistry) -> (r: Option<String>)
    ensures
        match r {
            Some(id) => spec_first_match(event@, registry@) == Some(id@),
            None => spec_first_match(event@, registry@) is None,
        },
{
    let n = registry.ids.len();
    let mut i: usize = 0;
    proof {
        assert(registry@.subrange(0, n as int) =~= registry@);
    }
    while i < n
        invariant
            n == registry.ids@.len(),
            spec_first_match(event@, registry@) == spec_first_match(
                event@,
                registry@.subrange(i as int, n as int),
            ),
            i <= n,
        decreases n - i,
    {
        proof {
            assert(registry@.subrange(i as int, n as int)[0] == registry@[i as int]);
            assert(registry@[i as int] == registry.ids@[i as int]@);
        }
        if event_mentions(event, registry.id_at(i).as_str()) {
            return Some(registry.id_at(i).clone());
        }
        proof {
            assert(registry@.subrange(i as int, n as int).subrange(
                1,
                (n - i) as int,
            ) =~= registry@.subrange(i as int + 1, n as int));
        }
        i += 1;
    }
    proof {
        assert(registry@.subrange(n as int, n as int) =~= Seq::<Seq<char>>::empty());
    }
    None
}

/// Walks a fetched batch and hands back, in event order, the owned
/// destination each scan event triggers: for each event of category
/// `ScanEvent`, the first owned id, in registry iteration order, that one of
/// the event's destination payloads mentions.
pub fn triggered_destinations(table: &EventTable, registry: &DestinationRegistry) -> (r: Vec<
    String,
>)
    ensures
        r@.map_values(|s: String| s@) == spec_triggers(table@, registry@),
{
    let n = table.events.len();
    let mut out: Vec<String> = Vec::new();
    let mut i: usize = 0;
    proof {
        assert(out@.map_values(|s: String| s@) =~= Seq::<Seq<char>>::empty());
        assert(table@.subrange(0, n as int) =~= table@);
        assert(Seq::<Seq<char>>::empty() + spec_triggers(table@, registry@) =~= spec_triggers(
            table@,
            registry@,
        ));
    }
    while i < n
        invariant
            n == table.events@.len(),
            i <= n,
            spec_triggers(table@, registry@) == out@.map_values(|s: String| s@) + spec_triggers(
                table@.subrange(i as int, n as int),
                registry@,
            ),
        decreases n - i,
    {
        let ghost pending = table@.subrange(i as int, n as int);
        proof {
            assert(pending[0] == table@[i as int]);
            assert(table@[i as int] == table.events@[i as int]@);
            assert(pending.subrange(1, (n - i) as int) =~= table@.subrange(i as int + 1, n as int));
        }
        let event = &table.events[i];
        if str_eq(event.unqualified_event_category.as_str(), "ScanEvent") {
            match first_match(event, registry) {
                Some(id) => {
                    let ghost before = out@;
                    out.push(id);
                    proof {
                        assert(out@.map_values(|s: String| s@) =~= before.map_values(
                            |s: String| s@,
                        ).push(out@.last()@));
                        assert(before.map_values(|s: String| s@).push(out@.last()@)
                            + spec_triggers(table@.subrange(i as int + 1, n as int), registry@)
                            =~= before.map_values(|s: String| s@) + spec_triggers(
                            pending,
                            registry@,
                        ));
                    }
                },
                None => {},
            }
        }
        i += 1;
    }
    proof {
        assert(table@.subrange(n as int, n as int) =~= Seq::<EventView>::empty());
        assert(out@.map_values(|s: String| s@) + Seq::<Seq<char>>::empty() =~= out@.map_values(
            |s: String| s@,
        ));
    }
    out
}

/// The cursor of the event feed: the aging-stamp of the newest event the
/// process has consumed, attached to the next fetch as its conditional
/// precondition.
pub struct EventCursor {
    pub last: Option<String>,
}

impl View for EventCursor {
    type V = Option<Seq<char>>;

    open spec fn view(&self) -> Option<Seq<char>> {
        match self.last {
            Some(ref s) => Some(s@),
            None => None,
        }
    }
}

impl EventCursor {
    /// A cursor that has consumed nothing: the first fetch is unconditional.
    pub fn new() -> (r: EventCursor)
        ensures
            r@ is None,
    {
        EventCursor { last: None }
    }

    /// Advances the cursor over a fetched batch: after a non-empty batch the
    /// newest event's aging-stamp becomes the precondition of the next
    /// fetch; an empty batch leaves the cursor as it was.
    pub fn observe(&mut self, table: &EventTable)
        ensures
            table@.len() == 0 ==> final(self)@ == old(self)@,
            table@.len() > 0 ==> final(self)@ == Some(table@.last().aging_stamp),
    {
        let n = table.events.len();
        if n > 0 {
            let stamp = table.events[n - 1].aging_stamp.clone();
            proof {
                assert(table@[n - 1] == table.events@[n - 1]@);
            }
            self.last = Some(stamp);
        }
    }

    /// The stamp the next fetch must be conditional on, if any.
    pub fn current(&self) -> (r: &Option<String>)
        ensures
            match r {
                Some(s) => self@ == Some(s@),
                None => self@ is None,
            },
    {
        &self.last
    }
}

// ---------------------------------------------------------------------------
// The no-re-delivery law of cursor-threaded fetching
// ---------------------------------------------------------------------------

/// Whether no two events of the feed share an aging-stamp.
pub open spec fn spec_distinct_stamps(log: Seq<EventView>) -> bool {
    forall|i: int, j: int|
        0 <= i < j < log.len() ==> (#[trigger] log[i].aging_stamp) != (#[trigger] log[j].aging_stamp)
}

/// Whether some event of the feed carries the given aging-stamp.
pub open spec fn spec_has_stamp(log: Seq<EventView>, stamp: Seq<char>) -> bool {
    exists|i: int| 0 <= i < log.len() && (#[trigger] log[i].aging_stamp) == stamp
}

/// The position of the event carrying the given aging-stamp.
pub open spec fn spec_stamp_index(log: Seq<EventView>, stamp: Seq<char>) -> int {
    choose|i: int| 0 <= i < log.len() && (#[trigger] log[i].aging_stamp) == stamp
}

/// The batch a fetch returns, as the device's conditional fetch behaves: all
/// events after the one whose aging-stamp matches the supplied cursor, and
/// the whole feed when no cursor is supplied or the cursor matches no event.
pub open spec fn spec_fetch(log: Seq<EventView>, cursor: Option<Seq<char>>) -> Seq<EventView> {
    match cursor {
        None => log,
        Some(c) => if spec_has_stamp(log, c) {
            log.subrange(spec_stamp_index(log, c) + 1, log.len() as int)
        } else {
            log
        },
    }
}

/// No-re-delivery law: once a batch has been returned for some cursor and
/// its newest event's aging-stamp is used as the cursor of the next fetch,
/// no event of that batch is returned again, however many events the feed
/// has gained in between — provided the feed only grows and stamps events
/// uniquely.
pub proof fn lemma_no_redelivery(
    log1: Seq<EventView>,
    log2: Seq<EventView>,
    cursor: Option<Seq<char>>,
)
    requires
        spec_distinct_stamps(log2),
        log1.len() <= log2.len(),
        log2.subrange(0, log1.len() as int) == log1,
        spec_fetch(log1, cursor).len() > 0,
    ensures
        forall|i: int, j: int|
            0 <= i < spec_fetch(log1, cursor).len() && 0 <= j < spec_fetch(
                log2,
                Some(spec_fetch(log1, cursor).last().aging_stamp),
            ).len() ==> (#[trigger] spec_fetch(log1, cursor)[i].aging_stamp) != (#[trigger] spec_fetch(
                log2,
                Some(spec_fetch(log1, cursor).last().aging_stamp),
            )[j].aging_stamp),
{
    let batch1 = spec_fetch(log1, cursor);
    let start = log1.len() - batch1.len();
    assert(batch1 =~= log1.subrange(start as int, log1.len() as int));
    let newest = batch1.last().aging_stamp;
    assert(forall|i: int| 0 <= i < log1.len() ==> log1[i] == log2.subrange(0, log1.len() as int)[i]);
    assert(log2[log1.len() - 1].aging_stamp == newest);
    assert(spec_has_stamp(log2, newest));
    let idx = spec_stamp_index(log2, newest);
    assert(0 <= idx < log2.len() && log2[idx].aging_stamp == newest);
    assert(idx == log1.len() - 1) by {
        if idx != log1.len() - 1 {
            assert(log2[idx].aging_stamp != log2[log1.len() - 1].aging_stamp);
        }
    }
    let batch2 = spec_fetch(log2, Some(newest));
    assert(batch2 =~= log2.subrange(log1.len() as int, log2.len() as int));
    assert forall|i: int, j: int|
        0 <= i < batch1.len() && 0 <= j < batch2.len() implies (#[trigger] batch1[i].aging_stamp)
        != (#[trigger] batch2[j].aging_stamp) by {
        assert(batch1[i] == log2[start + i]);
        assert(batch2[j] == log2[log1.len() + j]);
        assert(start + i < log1.len() <= log1.len() + j);
    }
}

} // verus!
