//! What the interceptor does with an event: the transition of the modifier
//! state and the events that go to the sink, as mathematical functions, and
//! what follows from them.

use vstd::prelude::*;
use crate::kbd::event::InputEvent;
use crate::kbd::keys::{EV_KEY, KEY_CAPSLOCK};
use crate::kbd::remap::{is_trigger, remap_table};

verus! {

/// Whether `ev` is a press, repeat or release of the modifier key.
pub open spec fn is_modifier_event(ev: InputEvent) -> bool {
    ev.kind == EV_KEY && ev.code == KEY_CAPSLOCK
}

/// The modifier state after `ev`, where it was `active` before: the modifier
/// key sets it, by any value but 0, and no other event touches it.
pub open spec fn next_modifier(active: bool, ev: InputEvent) -> bool {
    if is_modifier_event(ev) {
        ev.value != 0
    } else {
        active
    }
}

/// Whether `ev` is replaced by its substitute pair: a press or a repeat of a
/// trigger key while the modifier is held.
pub open spec fn is_substituted(active: bool, ev: InputEvent) -> bool {
    active && ev.kind == EV_KEY && ev.value >= 1 && is_trigger(ev.code)
}

/// `ev` with another code and value.
pub open spec fn with_key(ev: InputEvent, code: u16, value: i32) -> InputEvent {
    InputEvent { tv_sec: ev.tv_sec, tv_usec: ev.tv_usec, kind: ev.kind, code, value }
}

/// The press and the release of the key `code`, made from `ev`.
pub open spec fn press_release(ev: InputEvent, code: u16) -> Seq<InputEvent> {
    seq![with_key(ev, code, 1), with_key(ev, code, 0)]
}

/// The events that go to the sink for `ev`, in order, where the modifier
/// state was `active` before it.
pub open spec fn emitted(active: bool, ev: InputEvent) -> Seq<InputEvent> {
    if is_modifier_event(ev) {
        Seq::empty()
    } else if is_substituted(active, ev) {
        press_release(ev, remap_table()[ev.code])
    } else {
        seq![ev]
    }
}

/// The modifier state after all of `events`, taken in order, where it was
/// `active` before the first.
pub open spec fn modifier_after(active: bool, events: Seq<InputEvent>) -> bool
    decreases events.len(),
{
    if events.len() == 0 {
        active
    } else {
        next_modifier(modifier_after(active, events.drop_last()), events.last())
    }
}

/// The events that go to the sink for all of `events`, taken in order, where
/// the modifier state was `active` before the first.
pub open spec fn emitted_by(active: bool, events: Seq<InputEvent>) -> Seq<InputEvent>
    decreases events.len(),
{
    if events.len() == 0 {
        Seq::empty()
    } else {
        emitted_by(active, events.drop_last()) + emitted(
            modifier_after(active, events.drop_last()),
            events.last(),
        )
    }
}

/// A press or repeat of a trigger key while the modifier is held puts exactly
/// two events into the sink, the press and then the release of the substitute,
/// and leaves the modifier held.
pub proof fn lemma_trigger_substituted(ev: InputEvent)
    requires
        ev.kind == EV_KEY,
        ev.value >= 1,
        is_trigger(ev.code),
    ensures
        emitted(true, ev) == press_release(ev, remap_table()[ev.code]),
        emitted(true, ev).len() == 2,
        emitted(true, ev)[0].kind == EV_KEY,
        emitted(true, ev)[0].code == remap_table()[ev.code],
        emitted(true, ev)[0].value == 1,
        emitted(true, ev)[1].kind == EV_KEY,
        emitted(true, ev)[1].code == remap_table()[ev.code],
        emitted(true, ev)[1].value == 0,
        next_modifier(true, ev),
{
}

/// An event whose code has no entry in the remap table, and which is not of
/// the modifier key, goes to the sink as it is, whatever the modifier state,
/// and leaves that state alone.
pub proof fn lemma_unmapped_forwarded(active: bool, ev: InputEvent)
    requires
        !is_trigger(ev.code),
        !is_modifier_event(ev),
    ensures
        emitted(active, ev) == seq![ev],
        next_modifier(active, ev) == active,
{
}

/// An event that is no key event goes to the sink as it is, whatever its code
/// and the modifier state.
pub proof fn lemma_other_kinds_forwarded(active: bool, ev: InputEvent)
    requires
        ev.kind != EV_KEY,
    ensures
        emitted(active, ev) == seq![ev],
        next_modifier(active, ev) == active,
{
}

/// An event with a value of 0 or less, a release above all, goes to the sink
/// as it is, whatever the modifier state, unless it is of the modifier key.
pub proof fn lemma_release_forwarded(active: bool, ev: InputEvent)
    requires
        ev.value <= 0,
        !is_modifier_event(ev),
    ensures
        emitted(active, ev) == seq![ev],
        next_modifier(active, ev) == active,
{
}

/// The modifier key puts nothing into the sink: its press or repeat makes the
/// modifier state active, its release makes it inactive.
pub proof fn lemma_modifier_swallowed(active: bool, ev: InputEvent)
    requires
        is_modifier_event(ev),
    ensures
        emitted(active, ev).len() == 0,
        ev.value != 0 ==> next_modifier(active, ev),
        ev.value == 0 ==> !next_modifier(active, ev),
{
}

/// While the modifier is not held, every event but those of the modifier key
/// goes to the sink as it is, trigger keys too.
pub proof fn lemma_inactive_forwarded(ev: InputEvent)
    requires
        !is_modifier_event(ev),
    ensures
        emitted(false, ev) == seq![ev],
        !next_modifier(false, ev),
{
}

/// A repeat of a held trigger key is answered like a fresh press: whatever
/// value of 1 or more a key event of a trigger carries while the modifier is
/// held, the sink gets the press and the release of the substitute that a
/// press would give, and the event itself is not among them.
pub proof fn lemma_repeat_collapsed(ev: InputEvent)
    requires
        ev.kind == EV_KEY,
        ev.value >= 1,
        is_trigger(ev.code),
    ensures
        emitted(true, ev) == emitted(true, with_key(ev, ev.code, 1)),
        emitted(true, ev) == press_release(ev, remap_table()[ev.code]),
        !emitted(true, ev).contains(ev),
{
}

/// A run of events, none of them of the modifier key, that starts with the
/// modifier not held puts exactly these events into the sink, as many and in
/// the same order, and ends with the modifier not held.
pub proof fn lemma_inactive_run_forwarded(events: Seq<InputEvent>)
    requires
        forall|i: int| 0 <= i < events.len() ==> !is_modifier_event(#[trigger] events[i]),
    ensures
        emitted_by(false, events) == events,
        emitted_by(false, events).len() == events.len(),
        !modifier_after(false, events),
    decreases events.len(),
{
    if events.len() > 0 {
        lemma_inactive_run_forwarded(events.drop_last());
    }
}

/// A run of events that each go through unchanged, that is, none of the
/// modifier key and none replaced in the state that the run starts in, puts
/// exactly these events into the sink and leaves the modifier state as it was.
pub proof fn lemma_run_forwarded(active: bool, events: Seq<InputEvent>)
    requires
        forall|i: int|
            0 <= i < events.len() ==> !is_modifier_event(#[trigger] events[i]) && !is_substituted(
                active,
                events[i],
            ),
    ensures
        emitted_by(active, events) == events,
        modifier_after(active, events) == active,
    decreases events.len(),
{
    if events.len() > 0 {
        lemma_run_forwarded(active, events.drop_last());
    }
}

/// Events are answered one by one and in order: what a run puts into the sink
/// is what its first part puts there, followed by what the rest puts there
/// from the state that the first part ends in.
pub proof fn lemma_run_split(active: bool, first: Seq<InputEvent>, rest: Seq<InputEvent>)
    ensures
        modifier_after(active, first + rest) == modifier_after(
            modifier_after(active, first),
            rest,
        ),
        emitted_by(active, first + rest) == emitted_by(active, first) + emitted_by(
            modifier_after(active, first),
            rest,
        ),
    decreases rest.len(),
{
    if rest.len() > 0 {
        lemma_run_split(active, first, rest.drop_last());
        assert((first + rest).drop_last() =~= first + rest.drop_last());
    }
}

} // verus!
