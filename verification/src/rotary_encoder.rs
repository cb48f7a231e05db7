//! Rotary encoders: from the edges on two signal lines to reported turns.
//!
//! An [`Encoder`] holds the state and the direction that its two lines share.
//! Each edge, whichever line it comes from, goes through the quadrature
//! decoder; an accepted edge replaces state and direction, a rejected one is
//! dropped. When an edge completes a detent, the encoder says in which
//! direction, and under which name the turn is to be reported: its own, or a
//! shifted one while a switch is held.

use crate::interrupt::{edge_level, level_of_edge, EdgeEvent, EdgeKind, Level};
use crate::quadrature::{decode, DecodeError};
use crate::text_of;
use vstd::prelude::*;

verus! {

/// Direction of rotation.
///
/// `Unknown` is the direction of an encoder that has not confirmed a step yet.
#[derive(Debug, Clone, Copy, PartialEq, Eq, Structural)]
pub enum Direction {
    Clockwise,
    CounterClockwise,
    Unknown,
}

/// The two signal lines of a quadrature encoder.
#[derive(Debug, Clone, Copy, PartialEq, Eq, Structural)]
pub enum Pin {
    Dt,
    Clk,
}

/// Why an edge was dropped.
#[derive(Debug, Clone, Copy, PartialEq, Eq, Structural)]
pub enum EdgeError {
    /// The event was neither a rising nor a falling edge.
    UnexpectedEdgeKind(EdgeKind),
    /// The transition table rejects the edge.
    InvalidTransition(DecodeError),
}

/// A shift configuration that names only one of its two parts.
#[derive(Debug, Clone, Copy, PartialEq, Eq, Structural)]
pub enum ConfigurationError {
    /// A shifted name is configured, but no switch pin to select it.
    ShiftedNameWithoutSwitchPin,
    /// A switch pin is configured, but no shifted name to report.
    SwitchPinWithoutShiftedName,
}

/// One rotary encoder: its configuration, and the state and direction that
/// its two signal lines share.
#[derive(Debug)]
pub struct Encoder {
    name: String,
    name_shifted: Option<String>,
    dt_pin: u8,
    clk_pin: u8,
    sw_pin: Option<u8>,
    state: u8,
    direction: Direction,
}

/// An [`Encoder`] as a mathematical value.
pub struct EncoderView {
    /// The name that turns are reported under.
    pub name: Seq<char>,
    /// The name that turns are reported under while the switch is held.
    pub name_shifted: Option<Seq<char>>,
    /// The pin of the DT line.
    pub dt_pin: u8,
    /// The pin of the CLK line.
    pub clk_pin: u8,
    /// The pin of the switch that selects the shifted name.
    pub sw_pin: Option<u8>,
    /// The 2-bit state.
    pub state: u8,
    /// The direction that was last confirmed.
    pub direction: Direction,
}

impl EncoderView {
    /// The encoder after one edge on `pin`, and what the edge amounts to.
    ///
    /// `Ok(Some(direction))` is a completed detent, `Ok(None)` a half step.
    /// A dropped edge leaves the encoder as it was.
    pub open spec fn step(self, pin: Pin, event: EdgeEvent) -> (
        EncoderView,
        Result<Option<Direction>, EdgeError>,
    ) {
        match edge_level(event.kind) {
            None => (self, Err(EdgeError::UnexpectedEdgeKind(event.kind))),
            Some(level) => match decode(self.state, self.direction, pin, level) {
                Err(e) => (self, Err(EdgeError::InvalidTransition(e))),
                Ok((state, direction, trigger)) => (
                    EncoderView { state, direction, ..self },
                    Ok(
                        if trigger {
                            Some(direction)
                        } else {
                            None
                        },
                    ),
                ),
            },
        }
    }

    /// The name that a completed detent is reported under while the shift
    /// switch reads `switch_level`.
    ///
    /// Without a shift configuration the level plays no part. With one, a low
    /// level (the switch is held) selects the shifted name.
    pub open spec fn report_name(self, switch_level: Level) -> Result<
        Seq<char>,
        ConfigurationError,
    > {
        match (self.name_shifted, self.sw_pin) {
            (None, None) => Ok(self.name),
            (Some(shifted), Some(_)) => Ok(
                if switch_level == Level::Low {
                    shifted
                } else {
                    self.name
                },
            ),
            (Some(_), None) => Err(ConfigurationError::ShiftedNameWithoutSwitchPin),
            (None, Some(_)) => Err(ConfigurationError::SwitchPinWithoutShiftedName),
        }
    }
}

impl View for Encoder {
    type V = EncoderView;

    closed spec fn view(&self) -> EncoderView {
        EncoderView {
            name: self.name@,
            name_shifted: match self.name_shifted {
                Some(s) => Some(s@),
                None => None,
            },
            dt_pin: self.dt_pin,
            clk_pin: self.clk_pin,
            sw_pin: self.sw_pin,
            state: self.state,
            direction: self.direction,
        }
    }
}

impl Encoder {
    #[verifier::type_invariant]
    spec fn state_has_two_bits(self) -> bool {
        self.state <= 3
    }

    /// Creates an encoder at rest, with no direction confirmed.
    pub fn new(
        encoder_name: &str,
        encoder_name_shifted: Option<&str>,
        dt_pin: u8,
        clk_pin: u8,
        sw_pin: Option<u8>,
    ) -> (encoder: Self)
        ensures
            encoder@ == (EncoderView {
                name: encoder_name@,
                name_shifted: text_of(encoder_name_shifted),
                dt_pin,
                clk_pin,
                sw_pin,
                state: 0,
                direction: Direction::Unknown,
            }),
    {
        let name_shifted = match encoder_name_shifted {
            Some(s) => Some(s.to_owned()),
            None => None,
        };
        Encoder {
            name: encoder_name.to_owned(),
            name_shifted,
            dt_pin,
            clk_pin,
            sw_pin,
            state: 0,
            direction: Direction::Unknown,
        }
    }

    /// Feeds one edge on `pin` to the encoder.
    ///
    /// A falling edge is decoded as level 1 and a rising edge as level 0. An
    /// accepted edge replaces state and direction together; a dropped edge
    /// changes nothing.
    pub fn handle_edge(&mut self, pin: Pin, event: EdgeEvent) -> (result: Result<
        Option<Direction>,
        EdgeError,
    >)
        ensures
            (final(self)@, result) == old(self)@.step(pin, event),
    {
        proof {
            use_type_invariant(&*self);
        }
        let level: u8 = match level_of_edge(event.kind) {
            Some(level) => level,
            None => {
                return Err(EdgeError::UnexpectedEdgeKind(event.kind));
            },
        };
        match Encoder::update_state(self.state, self.direction, pin, level) {
            Ok((state, direction, trigger)) => {
                self.state = state;
                self.direction = direction;
                if trigger {
                    Ok(Some(direction))
                } else {
                    Ok(None)
                }
            },
            Err(e) => Err(EdgeError::InvalidTransition(e)),
        }
    }

    /// Picks the name to report a completed detent under, given the level
    /// that the shift switch reads.
    pub fn resolve_name(&self, switch_level: Level) -> (result: Result<&str, ConfigurationError>)
        ensures
            match result {
                Ok(name) => self@.report_name(switch_level) == Ok::<
                    Seq<char>,
                    ConfigurationError,
                >(name@),
                Err(e) => self@.report_name(switch_level) == Err::<Seq<char>, ConfigurationError>(
                    e,
                ),
            },
    {
        match (&self.name_shifted, self.sw_pin) {
            (None, None) => Ok(self.name.as_str()),
            (Some(shifted), Some(_)) => {
                if switch_level == Level::Low {
                    Ok(shifted.as_str())
                } else {
                    Ok(self.name.as_str())
                }
            },
            (Some(_), None) => Err(ConfigurationError::ShiftedNameWithoutSwitchPin),
            (None, Some(_)) => Err(ConfigurationError::SwitchPinWithoutShiftedName),
        }
    }

    /// The name that turns are reported under.
    pub fn name(&self) -> (name: &str)
        ensures
            name@ == self@.name,
    {
        self.name.as_str()
    }

    /// The name that turns are reported under while the switch is held.
    pub fn name_shifted(&self) -> (name: Option<&str>)
        ensures
            text_of(name) == self@.name_shifted,
    {
        match &self.name_shifted {
            Some(s) => Some(s.as_str()),
            None => None,
        }
    }

    /// The pin of the DT line.
    pub fn dt_pin(&self) -> (pin: u8)
        ensures
            pin == self@.dt_pin,
    {
        self.dt_pin
    }

    /// The pin of the CLK line.
    pub fn clk_pin(&self) -> (pin: u8)
        ensures
            pin == self@.clk_pin,
    {
        self.clk_pin
    }

    /// The pin of the switch that selects the shifted name.
    pub fn sw_pin(&self) -> (pin: Option<u8>)
        ensures
            pin == self@.sw_pin,
    {
        self.sw_pin
    }

    /// The 2-bit state.
    pub fn state(&self) -> (state: u8)
        ensures
            state == self@.state,
            state <= 3,
    {
        proof {
            use_type_invariant(self);
        }
        self.state
    }

    /// The direction that was last confirmed.
    pub fn direction(&self) -> (direction: Direction)
        ensures
            direction == self@.direction,
    {
        self.direction
    }
}

/// A dropped edge leaves the encoder exactly as it was, so the edge after it
/// is decoded as if the dropped one had never come.
pub proof fn dropped_edge_changes_nothing(encoder: EncoderView, pin: Pin, event: EdgeEvent)
    requires
        encoder.step(pin, event).1 is Err,
    ensures
        encoder.step(pin, event).0 == encoder,
{
}

/// An event that is neither a rising nor a falling edge is dropped, whatever
/// the state of the encoder.
pub proof fn event_that_is_no_edge_is_dropped(encoder: EncoderView, pin: Pin, event: EdgeEvent)
    requires
        event.kind != EdgeKind::Rising,
        event.kind != EdgeKind::Falling,
    ensures
        encoder.step(pin, event) == (
            encoder,
            Err::<Option<Direction>, EdgeError>(EdgeError::UnexpectedEdgeKind(event.kind)),
        ),
{
}

/// An edge changes state and direction at most: names and pins stay, and the
/// state keeps its two bits.
pub proof fn edge_keeps_the_configuration(encoder: EncoderView, pin: Pin, event: EdgeEvent)
    requires
        encoder.state <= 3,
    ensures
        encoder.step(pin, event).0.state <= 3,
        encoder.step(pin, event).0 == (EncoderView {
            state: encoder.step(pin, event).0.state,
            direction: encoder.step(pin, event).0.direction,
            ..encoder
        }),
{
}

/// No detent is reported within three edges of rest: a report takes the
/// four half steps of a full cycle.
pub proof fn no_detent_within_three_edges_of_rest(
    encoder: EncoderView,
    first: (Pin, EdgeEvent),
    second: (Pin, EdgeEvent),
    third: (Pin, EdgeEvent),
)
    requires
        encoder.state == 0b00,
    ensures
        ({
            let (e1, r1) = encoder.step(first.0, first.1);
            let (e2, r2) = e1.step(second.0, second.1);
            let (e3, r3) = e2.step(third.0, third.1);
            &&& !(r1 matches Ok(Some(_)))
            &&& !(r2 matches Ok(Some(_)))
            &&& !(r3 matches Ok(Some(_)))
        }),
{
}

/// A full clockwise turn from rest (00, 01, 11, 10, 00) reports exactly one
/// detent, on its last edge, whatever direction was confirmed before.
pub proof fn clockwise_turn_reports_one_detent(
    encoder: EncoderView,
    first: EdgeEvent,
    second: EdgeEvent,
    third: EdgeEvent,
    fourth: EdgeEvent,
)
    requires
        encoder.state == 0b00,
        first.kind == EdgeKind::Falling,
        second.kind == EdgeKind::Falling,
        third.kind == EdgeKind::Rising,
        fourth.kind == EdgeKind::Rising,
    ensures
        ({
            let (e1, r1) = encoder.step(Pin::Clk, first);
            let (e2, r2) = e1.step(Pin::Dt, second);
            let (e3, r3) = e2.step(Pin::Clk, third);
            let (e4, r4) = e3.step(Pin::Dt, fourth);
            &&& e1.state == 0b01 && e2.state == 0b11 && e3.state == 0b10
            &&& r1 == Ok::<Option<Direction>, EdgeError>(None)
            &&& r2 == Ok::<Option<Direction>, EdgeError>(None)
            &&& r3 == Ok::<Option<Direction>, EdgeError>(None)
            &&& r4 == Ok::<Option<Direction>, EdgeError>(Some(Direction::Clockwise))
            &&& e4 == EncoderView { state: 0b00, direction: Direction::Clockwise, ..encoder }
        }),
{
}

/// A full counter-clockwise turn from rest (00, 10, 11, 01, 00) reports
/// exactly one detent, on its last edge, whatever direction was confirmed
/// before.
pub proof fn counter_clockwise_turn_reports_one_detent(
    encoder: EncoderView,
    first: EdgeEvent,
    second: EdgeEvent,
    third: EdgeEvent,
    fourth: EdgeEvent,
)
    requires
        encoder.state == 0b00,
        first.kind == EdgeKind::Falling,
        second.kind == EdgeKind::Falling,
        third.kind == EdgeKind::Rising,
        fourth.kind == EdgeKind::Rising,
    ensures
        ({
            let (e1, r1) = encoder.step(Pin::Dt, first);
            let (e2, r2) = e1.step(Pin::Clk, second);
            let (e3, r3) = e2.step(Pin::Dt, third);
            let (e4, r4) = e3.step(Pin::Clk, fourth);
            &&& e1.state == 0b10 && e2.state == 0b11 && e3.state == 0b01
            &&& r1 == Ok::<Option<Direction>, EdgeError>(None)
            &&& r2 == Ok::<Option<Direction>, EdgeError>(None)
            &&& r3 == Ok::<Option<Direction>, EdgeError>(None)
            &&& r4 == Ok::<Option<Direction>, EdgeError>(Some(Direction::CounterClockwise))
            &&& e4 == EncoderView { state: 0b00, direction: Direction::CounterClockwise, ..encoder }
        }),
{
}

/// With a shifted name and a switch pin, a detent is reported under the
/// shifted name while the switch reads low and under the base name while it
/// reads high. With neither, it is reported under the base name.
pub proof fn shift_follows_the_switch(encoder: EncoderView, switch_level: Level)
    requires
        encoder.name_shifted is Some == encoder.sw_pin is Some,
    ensures
        encoder.report_name(switch_level) == Ok::<Seq<char>, ConfigurationError>(
            if encoder.name_shifted is Some && switch_level == Level::Low {
                encoder.name_shifted->0
            } else {
                encoder.name
            },
        ),
{
}

/// With exactly one of shifted name and switch pin, no name comes out,
/// whatever the switch reads: the detent is not reported.
pub proof fn half_a_shift_configuration_reports_nothing(encoder: EncoderView, switch_level: Level)
    requires
        encoder.name_shifted is Some != encoder.sw_pin is Some,
    ensures
        encoder.report_name(switch_level) == Err::<Seq<char>, ConfigurationError>(
            if encoder.name_shifted is Some {
                ConfigurationError::ShiftedNameWithoutSwitchPin
            } else {
                ConfigurationError::SwitchPinWithoutShiftedName
            },
        ),
{
}

} // verus!
