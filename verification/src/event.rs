use vstd::prelude::*;

verus! {

/// An event carrying a signed 64-bit payload and a flag.
#[derive(Debug, Clone, Copy, PartialEq, Eq, Structural)]
pub struct EventA {
    pub field_a1: i64,
    pub field_a2: bool,
}

/// An event carrying a 64-bit payload, given as the IEEE 754 bit pattern of a
/// double-precision number, together with a signed 32-bit payload. Boundary
/// adapters convert between the bit pattern and the floating-point value at
/// the edge; carrying the bits keeps delivery exact for every value,
/// including the payloads a floating-point comparison would conflate.
#[derive(Debug, Clone, Copy, PartialEq, Eq, Structural)]
pub struct EventB {
    pub field_b1: u64,
    pub field_b2: i32,
}

/// A broadcast event: a tagged union with exactly one variant active.
/// Fields are set at construction and never changed.
#[derive(Debug, Clone, Copy, PartialEq, Eq, Structural)]
pub enum Event {
    EventA(EventA),
    EventB(EventB),
}

/// The event value that `emit_event_a` constructs from its arguments.
pub open spec fn event_a(field_a1: i64, field_a2: bool) -> Event {
    Event::EventA(EventA { field_a1, field_a2 })
}

/// The event value that `emit_event_b` constructs from its arguments.
pub open spec fn event_b(field_b1: u64, field_b2: i32) -> Event {
    Event::EventB(EventB { field_b1, field_b2 })
}

/// Tag discrimination is total: every event is exactly one of the two
/// variants, so a handler that matches on the tag never sees the fields of
/// the other variant. In particular no `EventA` value equals any `EventB`
/// value.
pub proof fn lemma_no_cross_talk(e: Event)
    ensures
        e is EventA <==> !(e is EventB),
        forall|x: i64, y: bool, u: u64, v: i32| event_a(x, y) != event_b(u, v),
{
}

} // verus!
