use vstd::prelude::*;

use crate::mesh::PointBits;

verus! {

/// An input event in the GUI layer's model; positions are in GUI points.
#[derive(Clone, Copy, Debug, PartialEq, Eq, Structural)]
pub enum InputEvent {
    PointerMoved(PointBits),
    /// The primary button went down (`pressed`) or up.
    PointerButton { pos: PointBits, pressed: bool },
}

/// What the host window reports for one update: the pointer position,
/// already in GUI points, and whether the primary button was pressed or
/// released since the last update.
#[derive(Clone, Copy, Debug, PartialEq, Eq, Structural)]
pub struct HostInput {
    pub pointer: PointBits,
    pub pressed: bool,
    pub released: bool,
}

/// The events one host update produces while input is enabled: the pointer
/// move, then at most one button transition, a press taking precedence.
pub open spec fn host_events(h: HostInput) -> Seq<InputEvent> {
    seq![InputEvent::PointerMoved(h.pointer)] + if h.pressed {
        seq![InputEvent::PointerButton { pos: h.pointer, pressed: true }]
    } else if h.released {
        seq![InputEvent::PointerButton { pos: h.pointer, pressed: false }]
    } else {
        Seq::<InputEvent>::empty()
    }
}

/// The events produced by a run of host updates with input enabled.
pub open spec fn events_of(hs: Seq<HostInput>) -> Seq<InputEvent>
    decreases hs.len(),
{
    if hs.len() == 0 {
        Seq::empty()
    } else {
        events_of(hs.drop_last()) + host_events(hs.last())
    }
}

/// The number of press events in `es`.
pub open spec fn press_count(es: Seq<InputEvent>) -> nat
    decreases es.len(),
{
    if es.len() == 0 {
        0
    } else {
        press_count(es.drop_last()) + if es.last() is PointerButton && es.last()->pressed {
            1nat
        } else {
            0nat
        }
    }
}

proof fn lemma_press_count_append(a: Seq<InputEvent>, b: Seq<InputEvent>)
    ensures
        press_count(a + b) == press_count(a) + press_count(b),
    decreases b.len(),
{
    if b.len() == 0 {
        assert(a + b =~= a);
    } else {
        lemma_press_count_append(a, b.drop_last());
        assert((a + b).drop_last() =~= a + b.drop_last());
    }
}

/// A press reported once by the host, followed by any number of updates
/// in which the button is merely still held, yields exactly one press
/// event.
pub proof fn lemma_single_press(hs: Seq<HostInput>)
    requires
        hs.len() >= 1,
        hs[0].pressed,
        forall|i: int| 1 <= i < hs.len() ==> !(#[trigger] hs[i]).pressed && !hs[i].released,
    ensures
        press_count(events_of(hs)) == 1,
    decreases hs.len(),
{
    let h = hs.last();
    lemma_press_count_append(events_of(hs.drop_last()), host_events(h));
    let moved = seq![InputEvent::PointerMoved(h.pointer)];
    assert(press_count(moved) == 0) by {
        assert(moved.drop_last() =~= Seq::<InputEvent>::empty());
        assert(press_count(moved.drop_last()) == 0);
    }
    if hs.len() == 1 {
        assert(hs.drop_last() =~= Seq::<HostInput>::empty());
        let press = seq![InputEvent::PointerButton { pos: h.pointer, pressed: true }];
        assert(host_events(h) == moved + press);
        lemma_press_count_append(moved, press);
        assert(press.drop_last() =~= Seq::<InputEvent>::empty());
        assert(press_count(press.drop_last()) == 0);
    } else {
        let rest = hs.drop_last();
        assert forall|i: int| 1 <= i < rest.len() implies !(#[trigger] rest[i]).pressed
            && !rest[i].released by {
            assert(rest[i] == hs[i]);
        }
        lemma_single_press(rest);
        assert(!h.pressed && !h.released) by {
            assert(h == hs[hs.len() - 1]);
        }
        assert(host_events(h) =~= moved);
    }
}

} // verus!
