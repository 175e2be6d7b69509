//! Worker events and the per-worker relay that feeds the combined stream.
//!
//! Each worker writes [`Event`]s to its own channel; one relay per worker
//! forwards them into the combined channel, prefixing every message with a
//! tag naming the originating slot. The relay stops at the first shutdown
//! signal or when the worker's channel closes; [`relay_step`] is the
//! decision taken at one suspension point, and [`relay_events`] is the
//! same policy run over a whole observed sequence.

use vstd::prelude::*;

use crate::numeral::append_decimal;
use crate::numeral::spec_decimal;

verus! {

/// One event produced by a worker. The relay is the only mutator after
/// creation: it prefixes the message with the origin slot's tag and
/// records the slot.
pub struct Event {
    /// Human-readable message text.
    pub msg: String,
    /// The slot that produced the event, filled in by the relay.
    pub origin_slot: Option<u64>,
}

impl Clone for Event {
    fn clone(&self) -> (other: Self)
        ensures
            other.msg@ == self.msg@,
            other.origin_slot == self.origin_slot,
    {
        Event { msg: self.msg.clone(), origin_slot: self.origin_slot }
    }
}

/// What a relay observes at one suspension point: a shutdown signal won
/// the race, the worker's channel closed, or the next event arrived.
pub enum WorkerObservation {
    /// A shutdown broadcast (external or internal) was received.
    Shutdown,
    /// The worker's event channel closed with no more events.
    Closed,
    /// The next event from the worker.
    Item(Event),
}

/// The relay's decision for one observation: stop, or forward the tagged
/// event to the combined channel.
pub enum RelayAction {
    /// Stop relaying; nothing further from this worker is forwarded.
    Stop,
    /// Forward this tagged event to the combined channel.
    Forward(Event),
}

/// The origin tag for a slot, as prefixed to every relayed message.
pub open spec fn spec_slot_tag(slot: nat) -> Seq<char> {
    "[W"@ + spec_decimal(slot) + "] "@
}

/// Renders the origin tag for `slot_index`.
pub fn slot_tag(slot_index: u64) -> (tag: String)
    ensures
        tag@ == spec_slot_tag(slot_index as nat),
{
    let mut tag = String::new();
    tag.append("[W");
    append_decimal(slot_index, &mut tag);
    tag.append("] ");
    proof {
        assert(tag@ =~= spec_slot_tag(slot_index as nat));
    }
    tag
}

/// Prefixes the event's message with the tag of `slot_index` and records
/// the origin. The original message follows the tag unchanged.
pub fn tag_event(event: Event, slot_index: u64) -> (tagged: Event)
    ensures
        tagged.msg@ == spec_slot_tag(slot_index as nat) + event.msg@,
        tagged.origin_slot == Some(slot_index),
{
    let mut msg = slot_tag(slot_index);
    msg.append(event.msg.as_str());
    proof {
        assert(msg@ =~= spec_slot_tag(slot_index as nat) + event.msg@);
    }
    Event { msg, origin_slot: Some(slot_index) }
}

/// The relay's decision for one observation: any shutdown receipt and a
/// closed channel both stop the relay at once; an event is forwarded with
/// the slot's tag prefixed to its message.
pub fn relay_step(observation: WorkerObservation, slot_index: u64) -> (action: RelayAction)
    ensures
        observation is Shutdown ==> action is Stop,
        observation is Closed ==> action is Stop,
        observation matches WorkerObservation::Item(e) ==> (
            action matches RelayAction::Forward(t)
                && t.msg@ == spec_slot_tag(slot_index as nat) + e.msg@
                && t.origin_slot == Some(slot_index)
        ),
{
    match observation {
        WorkerObservation::Shutdown => RelayAction::Stop,
        WorkerObservation::Closed => RelayAction::Stop,
        WorkerObservation::Item(e) => RelayAction::Forward(tag_event(e, slot_index)),
    }
}

/// The messages of a sequence of events, in order.
pub open spec fn spec_msgs(events: Seq<Event>) -> Seq<Seq<char>> {
    events.map_values(|e: Event| e.msg@)
}

/// The messages the relay for `slot` forwards when it observes `obs` in
/// order: each event before the first shutdown or close, tagged, in the
/// order observed.
pub open spec fn spec_relay(obs: Seq<WorkerObservation>, slot: nat) -> Seq<Seq<char>>
    decreases obs.len(),
{
    if obs.len() == 0 {
        Seq::empty()
    } else {
        match obs[0] {
            WorkerObservation::Item(e) => seq![spec_slot_tag(slot) + e.msg@]
                + spec_relay(obs.drop_first(), slot),
            _ => Seq::empty(),
        }
    }
}

/// The untagged messages of the events before the first shutdown or
/// close, in the order observed.
pub open spec fn spec_pending_msgs(obs: Seq<WorkerObservation>) -> Seq<Seq<char>>
    decreases obs.len(),
{
    if obs.len() == 0 {
        Seq::empty()
    } else {
        match obs[0] {
            WorkerObservation::Item(e) => seq![e.msg@] + spec_pending_msgs(obs.drop_first()),
            _ => Seq::empty(),
        }
    }
}

/// Runs the relay policy over a whole observed sequence: the forwarded
/// events are exactly the tagged messages [`spec_relay`] names.
pub fn relay_events(observations: &Vec<WorkerObservation>, slot_index: u64) -> (forwarded: Vec<
    Event,
>)
    ensures
        spec_msgs(forwarded@) == spec_relay(observations@, slot_index as nat),
        forall|i: int| 0 <= i < forwarded@.len() ==> (#[trigger] forwarded@[i]).origin_slot
            == Some(slot_index),
{
    let ghost slot = slot_index as nat;
    let mut forwarded: Vec<Event> = Vec::new();
    let mut i: usize = 0;
    let mut stopped = false;
    proof {
        assert(observations@.skip(0) =~= observations@);
        assert(spec_msgs(forwarded@) =~= Seq::<Seq<char>>::empty());
        assert(spec_msgs(forwarded@) + spec_relay(observations@, slot) =~= spec_relay(
            observations@,
            slot,
        ));
    }
    while i < observations.len() && !stopped
        invariant
            slot == slot_index as nat,
            i <= observations@.len(),
            forall|k: int| 0 <= k < forwarded@.len() ==> (#[trigger] forwarded@[k]).origin_slot
                == Some(slot_index),
            stopped ==> spec_msgs(forwarded@) == spec_relay(observations@, slot),
            !stopped ==> spec_relay(observations@, slot) == spec_msgs(forwarded@) + spec_relay(
                observations@.skip(i as int),
                slot,
            ),
        decreases observations@.len() - i + (if stopped { 0int } else { 1int }),
    {
        let ghost rest = observations@.skip(i as int);
        proof {
            assert(rest[0] == observations@[i as int]);
            assert(rest.drop_first() =~= observations@.skip(i as int + 1));
        }
        match &observations[i] {
            WorkerObservation::Item(e) => {
                let tagged = tag_event(e.clone(), slot_index);
                let ghost tagged_msg = tagged.msg@;
                let ghost before = forwarded@;
                forwarded.push(tagged);
                proof {
                    assert(spec_relay(rest, slot) == seq![spec_slot_tag(slot) + e.msg@]
                        + spec_relay(rest.drop_first(), slot));
                    assert(spec_msgs(forwarded@) =~= spec_msgs(before).push(tagged_msg));
                    assert(spec_msgs(forwarded@) + spec_relay(rest.drop_first(), slot)
                        =~~= spec_msgs(before) + spec_relay(rest, slot));
                    assert(spec_relay(observations@, slot) == spec_msgs(forwarded@) + spec_relay(
                        observations@.skip(i as int + 1),
                        slot,
                    ));
                }
            },
            WorkerObservation::Shutdown => {
                stopped = true;
                proof {
                    assert(spec_relay(rest, slot) =~= Seq::<Seq<char>>::empty());
                    assert(spec_msgs(forwarded@) =~= spec_relay(observations@, slot));
                }
            },
            WorkerObservation::Closed => {
                stopped = true;
                proof {
                    assert(spec_relay(rest, slot) =~= Seq::<Seq<char>>::empty());
                    assert(spec_msgs(forwarded@) =~= spec_relay(observations@, slot));
                }
            },
        }
        if !stopped {
            i += 1;
        }
    }
    proof {
        if !stopped {
            assert(observations@.skip(i as int) =~= Seq::<WorkerObservation>::empty());
            assert(spec_relay(observations@.skip(i as int), slot) =~= Seq::<Seq<char>>::empty());
            assert(spec_msgs(forwarded@) =~= spec_relay(observations@, slot));
        }
    }
    forwarded
}

/// Every forwarded message carries the slot's tag, and the events of one
/// worker keep their relative order end to end: the `i`-th forwarded
/// message is exactly the tag followed by the `i`-th message the worker
/// emitted before the relay stopped.
pub proof fn lemma_relay_tags_in_order(obs: Seq<WorkerObservation>, slot: nat)
    ensures
        spec_relay(obs, slot).len() == spec_pending_msgs(obs).len(),
        forall|i: int| 0 <= i < spec_relay(obs, slot).len() ==> spec_relay(obs, slot)[i]
            == spec_slot_tag(slot) + spec_pending_msgs(obs)[i],
    decreases obs.len(),
{
    if obs.len() > 0 {
        match obs[0] {
            WorkerObservation::Item(_) => {
                lemma_relay_tags_in_order(obs.drop_first(), slot);
            },
            _ => {},
        }
    }
}

/// A shutdown observation halts the relay at once: whatever is buffered
/// at or after the signal's position, nothing from that position on is
/// forwarded.
pub proof fn lemma_shutdown_halts_relay(obs: Seq<WorkerObservation>, slot: nat, k: int)
    requires
        0 <= k < obs.len(),
        obs[k] is Shutdown,
    ensures
        spec_relay(obs, slot).len() <= k,
    decreases obs.len(),
{
    if k > 0 {
        match obs[0] {
            WorkerObservation::Item(_) => {
                lemma_shutdown_halts_relay(obs.drop_first(), slot, k - 1);
            },
            _ => {},
        }
    }
}

} // verus!
