//! What an interrupt source delivers: edges with a kind and a timestamp, and
//! sampled pin levels.
//!
//! The decoders never talk to the hardware. Whoever subscribes to the pins
//! hands each edge over as an [`EdgeEvent`] and each sampled level as a
//! [`Level`].

use vstd::prelude::*;

verus! {

/// The kind of an edge event, as the interrupt source labels it.
///
/// A subscription to both edges delivers `Rising` and `Falling`. The two other
/// kinds name a subscription mode rather than an edge; a decoder drops an
/// event that carries one of them.
#[derive(Debug, Clone, Copy, PartialEq, Eq, Structural)]
pub enum EdgeKind {
    Disabled,
    Rising,
    Falling,
    Both,
}

/// The logic level of a pin.
#[derive(Debug, Clone, Copy, PartialEq, Eq, Structural)]
pub enum Level {
    Low,
    High,
}

/// One edge on one pin.
#[derive(Debug, Clone, Copy, PartialEq, Eq, Structural)]
pub struct EdgeEvent {
    /// When the edge occurred, in nanoseconds since some fixed instant.
    pub timestamp: u128,
    /// The number of this event among the events of its pin.
    pub seqno: u32,
    /// Whether the line rose or fell.
    pub kind: EdgeKind,
}

/// The level that a decoder records for an edge, if the event is an edge.
///
/// The lines are wired with pull-ups, so the asserted state of a line is low:
/// a falling edge is recorded as 1 and a rising edge as 0.
pub open spec fn edge_level(kind: EdgeKind) -> Option<u8> {
    match kind {
        EdgeKind::Falling => Some(1u8),
        EdgeKind::Rising => Some(0u8),
        _ => None,
    }
}

/// Computes [`edge_level`].
pub fn level_of_edge(kind: EdgeKind) -> (level: Option<u8>)
    ensures
        level == edge_level(kind),
{
    match kind {
        EdgeKind::Falling => Some(1),
        EdgeKind::Rising => Some(0),
        _ => None,
    }
}

} // verus!
