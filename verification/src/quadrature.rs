//! The quadrature decoder: what one edge does to the state of an encoder.
//!
//! The state of an encoder has two bits: bit 0 is the level last seen on CLK,
//! bit 1 the level last seen on DT. An edge replaces the bit of its line. The
//! old and the new state form a 4-bit transition word, and a fixed table says
//! which words are half steps of a clockwise turn, which are half steps of a
//! counter-clockwise turn, and which are rejected. The half step that brings
//! the encoder back to rest completes a detent.
//!
//! Several states are reached from both sides, so the table alone cannot tell
//! which way the last half step of a cycle went. The direction that the steps
//! before it confirmed settles that.

use crate::rotary_encoder::{Direction, Encoder, Pin};
use vstd::prelude::*;

verus! {

/// An edge that the transition table rejects.
///
/// It carries what the decoder saw, so that the caller can report it. The
/// encoder's state is not touched by a rejected edge.
#[derive(Debug, Clone, Copy, PartialEq, Eq, Structural)]
pub struct DecodeError {
    /// The 2-bit state before the edge.
    pub old_state: u8,
    /// The direction that was confirmed before the edge.
    pub old_direction: Direction,
    /// The 4-bit transition word that was rejected.
    pub transition: u8,
}

/// The level last seen on CLK: bit 0 of a state.
pub open spec fn clk_level(state: u8) -> int {
    state as int % 2
}

/// The level last seen on DT: bit 1 of a 2-bit state.
pub open spec fn dt_level(state: u8) -> int {
    state as int / 2
}

/// The state after `pin` has gone to `level`: the bit that `pin` owns is
/// replaced, the other bit stays.
pub open spec fn next_state(old_state: u8, pin: Pin, level: u8) -> int {
    match pin {
        Pin::Clk => 2 * dt_level(old_state) + level,
        Pin::Dt => 2 * level + clk_level(old_state),
    }
}

/// The transition word: the old state in bits 3 and 2, the new state in bits
/// 1 and 0.
pub open spec fn transition_word(old_state: int, new_state: int) -> int {
    4 * old_state + new_state
}

/// The transition table.
///
/// `Some((direction, trigger))` for an accepted word, `None` for a rejected
/// one. Six words are half steps with a fixed direction. The two words that
/// lead back to rest complete a detent, and are accepted only when the
/// direction confirmed so far agrees with them. Every other word is rejected:
/// one that repeats a state, and one that changes both bits at once, such as
/// 1100. The decoder does not make up for an edge that it has not seen.
pub open spec fn classify(word: int, old_direction: Direction) -> Option<(Direction, bool)> {
    if word == 0b0001 || word == 0b0111 || word == 0b1110 {
        Some((Direction::Clockwise, false))
    } else if word == 0b0010 || word == 0b1011 || word == 0b1101 {
        Some((Direction::CounterClockwise, false))
    } else if word == 0b0100 && old_direction == Direction::CounterClockwise {
        Some((Direction::CounterClockwise, true))
    } else if word == 0b1000 && old_direction == Direction::Clockwise {
        Some((Direction::Clockwise, true))
    } else {
        None
    }
}

/// What one edge does to an encoder in state `old_state` with direction
/// `old_direction`: the new state, the new direction and whether a detent was
/// completed, or the rejected transition.
pub open spec fn decode(old_state: u8, old_direction: Direction, pin: Pin, level: u8) -> Result<
    (u8, Direction, bool),
    DecodeError,
> {
    let new_state: int = next_state(old_state, pin, level);
    let word: int = transition_word(old_state as int, new_state);
    match classify(word, old_direction) {
        Some((direction, trigger)) => Ok((new_state as u8, direction, trigger)),
        None => Err(DecodeError { old_state, old_direction, transition: word as u8 }),
    }
}

/// Looks a transition word up in the table.
pub fn classify_transition(word: u8, old_direction: Direction) -> (result: Option<
    (Direction, bool),
>)
    ensures
        result == classify(word as int, old_direction),
{
    match word {
        0b0001 | 0b0111 | 0b1110 => Some((Direction::Clockwise, false)),
        0b0010 | 0b1011 | 0b1101 => Some((Direction::CounterClockwise, false)),
        0b0100 if old_direction == Direction::CounterClockwise => Some(
            (Direction::CounterClockwise, true),
        ),
        0b1000 if old_direction == Direction::Clockwise => Some((Direction::Clockwise, true)),
        _ => None,
    }
}

impl Encoder {
    /// Decodes one edge.
    ///
    /// `old_state` is a 2-bit state and `level` is 0 or 1. On `Err` the caller
    /// keeps the old state and direction: the edge is dropped.
    pub fn update_state(old_state: u8, old_direction: Direction, pin: Pin, level: u8) -> (result:
        Result<(u8, Direction, bool), DecodeError>)
        requires
            old_state <= 3,
            level <= 1,
        ensures
            result == decode(old_state, old_direction, pin, level),
    {
        let new_state: u8 = match pin {
            Pin::Clk => {
                assert(old_state & 0b10 == 2 * (old_state / 2)) by (bit_vector)
                    requires
                        old_state <= 3,
                ;
                (old_state & 0b10) + level
            },
            Pin::Dt => {
                assert(old_state & 0b01 == old_state % 2) by (bit_vector);
                assert(level << 1 == 2 * level) by (bit_vector)
                    requires
                        level <= 1,
                ;
                (old_state & 0b01) + (level << 1)
            },
        };
        assert(old_state << 2 == 4 * old_state) by (bit_vector)
            requires
                old_state <= 3,
        ;
        let word: u8 = (old_state << 2) + new_state;
        match classify_transition(word, old_direction) {
            Some((direction, trigger)) => Ok((new_state, direction, trigger)),
            None => Err(DecodeError { old_state, old_direction, transition: word }),
        }
    }
}

/// The state that follows `state` in a clockwise turn: 00, 01, 11, 10 and
/// back to 00.
pub open spec fn clockwise_successor(state: int) -> int {
    if state == 0b00 {
        0b01
    } else if state == 0b01 {
        0b11
    } else if state == 0b11 {
        0b10
    } else {
        0b00
    }
}

/// Decoding is a function of its four arguments: two calls that agree on
/// them agree on the result.
pub proof fn update_state_is_deterministic(
    old_state: u8,
    old_direction: Direction,
    pin: Pin,
    level: u8,
    first: Result<(u8, Direction, bool), DecodeError>,
    second: Result<(u8, Direction, bool), DecodeError>,
)
    requires
        call_ensures(Encoder::update_state, (old_state, old_direction, pin, level), first),
        call_ensures(Encoder::update_state, (old_state, old_direction, pin, level), second),
    ensures
        first == second,
{
}

/// An edge replaces the bit of its own line and leaves the other bit alone,
/// and the result is again a 2-bit state.
pub proof fn edge_replaces_only_its_own_bit(old_state: u8, pin: Pin, level: u8)
    requires
        old_state <= 3,
        level <= 1,
    ensures
        0 <= next_state(old_state, pin, level) <= 3,
        pin == Pin::Clk ==> clk_level(next_state(old_state, pin, level) as u8) == level
            && dt_level(next_state(old_state, pin, level) as u8) == dt_level(old_state),
        pin == Pin::Dt ==> dt_level(next_state(old_state, pin, level) as u8) == level
            && clk_level(next_state(old_state, pin, level) as u8) == clk_level(old_state),
{
}

/// The table is the Gray code of the encoder. A word is accepted exactly when
/// the new state is the neighbour of the old one in one of the two senses of
/// rotation, and it then carries that sense. A step that comes back to rest
/// completes a detent, and counts only if the direction confirmed so far is
/// the same. A word that repeats a state, or changes both bits, is rejected.
pub proof fn table_follows_the_gray_code(old_state: int, new_state: int, old_direction: Direction)
    requires
        0 <= old_state <= 3,
        0 <= new_state <= 3,
    ensures
        classify(transition_word(old_state, new_state), old_direction) == if new_state
            == clockwise_successor(old_state) {
            if new_state != 0 || old_direction == Direction::Clockwise {
                Some((Direction::Clockwise, new_state == 0))
            } else {
                None
            }
        } else if old_state == clockwise_successor(new_state) {
            if new_state != 0 || old_direction == Direction::CounterClockwise {
                Some((Direction::CounterClockwise, new_state == 0))
            } else {
                None
            }
        } else {
            None
        },
{
}

/// The words 0000 and 0011 are rejected whatever the direction, and an edge
/// that produces one of them is answered with an error that carries the old
/// state, the old direction and the word.
pub proof fn words_0000_and_0011_are_rejected(
    old_state: u8,
    old_direction: Direction,
    pin: Pin,
    level: u8,
)
    requires
        old_state <= 3,
        level <= 1,
    ensures
        classify(0b0000, old_direction) is None,
        classify(0b0011, old_direction) is None,
        ({
            let word: int = transition_word(old_state as int, next_state(old_state, pin, level));
            word == 0b0000 || word == 0b0011 ==> decode(old_state, old_direction, pin, level)
                == Err::<(u8, Direction, bool), DecodeError>(
                DecodeError { old_state, old_direction, transition: word as u8 },
            )
        }),
{
}

/// The word 0100 completes a detent if and only if the direction confirmed so
/// far is counter-clockwise. With any other direction it is an error.
pub proof fn word_0100_triggers_iff_counter_clockwise(
    old_state: u8,
    old_direction: Direction,
    pin: Pin,
    level: u8,
)
    requires
        old_state <= 3,
        level <= 1,
        transition_word(old_state as int, next_state(old_state, pin, level)) == 0b0100,
    ensures
        classify(0b0100, old_direction) == if old_direction == Direction::CounterClockwise {
            Some((Direction::CounterClockwise, true))
        } else {
            None
        },
        decode(old_state, old_direction, pin, level) == if old_direction
            == Direction::CounterClockwise {
            Ok::<(u8, Direction, bool), DecodeError>((0b00u8, Direction::CounterClockwise, true))
        } else {
            Err(DecodeError { old_state, old_direction, transition: 0b0100u8 })
        },
{
}

/// The word 1000 completes a detent if and only if the direction confirmed so
/// far is clockwise. With any other direction it is an error.
pub proof fn word_1000_triggers_iff_clockwise(
    old_state: u8,
    old_direction: Direction,
    pin: Pin,
    level: u8,
)
    requires
        old_state <= 3,
        level <= 1,
        transition_word(old_state as int, next_state(old_state, pin, level)) == 0b1000,
    ensures
        classify(0b1000, old_direction) == if old_direction == Direction::Clockwise {
            Some((Direction::Clockwise, true))
        } else {
            None
        },
        decode(old_state, old_direction, pin, level) == if old_direction == Direction::Clockwise {
            Ok::<(u8, Direction, bool), DecodeError>((0b00u8, Direction::Clockwise, true))
        } else {
            Err(DecodeError { old_state, old_direction, transition: 0b1000u8 })
        },
{
}

/// A detent is completed only on arrival at rest, in the direction that was
/// already confirmed; and no accepted edge leaves the direction unknown.
pub proof fn detents_end_at_rest(old_state: u8, old_direction: Direction, pin: Pin, level: u8)
    requires
        old_state <= 3,
        level <= 1,
    ensures
        decode(old_state, old_direction, pin, level) matches Ok((state, direction, trigger)) ==> {
            &&& state <= 3
            &&& direction != Direction::Unknown
            &&& trigger ==> state == 0 && direction == old_direction
        },
{
}

/// The edge that moves an encoder in `state` one half step further in the
/// sense `sense`: the line that changes, and the level it goes to.
pub open spec fn half_step(state: u8, sense: Direction) -> (Pin, u8) {
    if sense == Direction::Clockwise {
        if state == 0b00 {
            (Pin::Clk, 1)
        } else if state == 0b01 {
            (Pin::Dt, 1)
        } else if state == 0b11 {
            (Pin::Clk, 0)
        } else {
            (Pin::Dt, 0)
        }
    } else {
        if state == 0b00 {
            (Pin::Dt, 1)
        } else if state == 0b10 {
            (Pin::Clk, 1)
        } else if state == 0b11 {
            (Pin::Dt, 0)
        } else {
            (Pin::Clk, 0)
        }
    }
}

/// The state of an encoder that has left rest by `half_steps` half steps in
/// the sense `sense`.
pub open spec fn position(sense: Direction, half_steps: nat) -> u8 {
    if half_steps % 4 == 0 {
        0b00
    } else if half_steps % 4 == 2 {
        0b11
    } else if (half_steps % 4 == 1) == (sense == Direction::Clockwise) {
        0b01
    } else {
        0b10
    }
}

/// An encoder after `half_steps` half steps in one sense: its state, its
/// direction, and the number of detents that it has reported on the way. A
/// rejected edge would leave it where it is.
pub open spec fn turn(state: u8, direction: Direction, sense: Direction, half_steps: nat) -> (
    u8,
    Direction,
    nat,
)
    decreases half_steps,
{
    if half_steps == 0 {
        (state, direction, 0)
    } else {
        let (s, d, detents): (u8, Direction, nat) = turn(
            state,
            direction,
            sense,
            (half_steps - 1) as nat,
        );
        let (pin, level): (Pin, u8) = half_step(s, sense);
        match decode(s, d, pin, level) {
            Ok((next, confirmed, trigger)) => (
                next,
                confirmed,
                if trigger {
                    detents + 1
                } else {
                    detents
                },
            ),
            Err(_) => (s, d, detents),
        }
    }
}

/// One more half step of a steady turn is accepted, and completes a detent
/// exactly when it is the fourth of its cycle.
proof fn lemma_half_step_is_accepted(sense: Direction, half_steps: nat, confirmed: Direction)
    requires
        sense != Direction::Unknown,
        half_steps % 4 == 3 ==> confirmed == sense,
    ensures
        ({
            let state: u8 = position(sense, half_steps);
            let (pin, level): (Pin, u8) = half_step(state, sense);
            decode(state, confirmed, pin, level) == Ok::<(u8, Direction, bool), DecodeError>(
                (position(sense, half_steps + 1), sense, half_steps % 4 == 3),
            )
        }),
{
}

/// A steady turn reports one detent for every four half steps. After any
/// number of half steps from rest in one sense, whatever direction was
/// confirmed before, no edge has been rejected, the state is the one that the
/// sense and the number of half steps give, and the number of detents
/// reported is the number of full cycles.
pub proof fn steady_turn_reports_one_detent_per_cycle(
    direction: Direction,
    sense: Direction,
    half_steps: nat,
)
    requires
        sense != Direction::Unknown,
    ensures
        turn(0b00, direction, sense, half_steps) == (
            position(sense, half_steps),
            if half_steps == 0 {
                direction
            } else {
                sense
            },
            half_steps / 4,
        ),
    decreases half_steps,
{
    if half_steps > 0 {
        let before: nat = (half_steps - 1) as nat;
        steady_turn_reports_one_detent_per_cycle(direction, sense, before);
        let confirmed = if before == 0 {
            direction
        } else {
            sense
        };
        lemma_half_step_is_accepted(sense, before, confirmed);
    }
}

} // verus!
