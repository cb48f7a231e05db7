//! Press, release and long-press classification for a momentary switch.
//!
//! A switch without a long-press name reports every press and release under
//! its own name. A switch with one remembers when it was pressed, and reports
//! a release under the long-press name when the switch was held for longer
//! than its threshold.

use crate::interrupt::{EdgeEvent, EdgeKind};
use crate::text_of;
use vstd::prelude::*;

verus! {

/// An event that is no edge: it is dropped, and nothing is reported.
#[derive(Debug, Clone, Copy, PartialEq, Eq, Structural)]
pub struct UnexpectedEdgeKind(pub EdgeKind);

/// One switch: its configuration and, while it is held in long-press mode,
/// the time at which it was pressed.
pub struct Encoder {
    name: String,
    name_long_press: Option<String>,
    pin: u8,
    long_press_threshold: Option<u128>,
    pressed_at: Option<u128>,
}

/// An [`Encoder`] as a mathematical value.
pub struct EncoderView {
    /// The name that presses and short releases are reported under.
    pub name: Seq<char>,
    /// The name that the release of a long press is reported under.
    pub name_long_press: Option<Seq<char>>,
    /// The pin of the switch.
    pub pin: u8,
    /// How long a press may last, in nanoseconds, without being a long one.
    pub long_press_threshold: Option<u128>,
    /// When the switch was pressed, if a press is being timed.
    pub pressed_at: Option<u128>,
}

/// The time between a press and a release, in nanoseconds. A release that is
/// stamped earlier than its press counts as no time at all.
pub open spec fn held_for(pressed_at: u128, released_at: u128) -> nat {
    if released_at >= pressed_at {
        (released_at - pressed_at) as nat
    } else {
        0
    }
}

impl EncoderView {
    /// Whether releases are classified by how long the switch was held.
    pub open spec fn long_press_mode(self) -> bool {
        self.name_long_press is Some
    }

    /// Whether a release at `released_at` ends a long press: a press is being
    /// timed, a threshold is configured, and the switch was held for longer
    /// than the threshold.
    pub open spec fn is_long_press(self, released_at: u128) -> bool {
        &&& self.long_press_mode()
        &&& self.pressed_at matches Some(pressed_at)
        &&& self.long_press_threshold matches Some(threshold)
        &&& held_for(pressed_at, released_at) > threshold
    }

    /// The switch after one event, and the name and the pressed flag to
    /// report for it.
    pub open spec fn step(self, event: EdgeEvent) -> (
        EncoderView,
        Result<(Seq<char>, bool), UnexpectedEdgeKind>,
    ) {
        match event.kind {
            EdgeKind::Falling => (
                EncoderView {
                    pressed_at: if self.long_press_mode() {
                        Some(event.timestamp)
                    } else {
                        None
                    },
                    ..self
                },
                Ok((self.name, true)),
            ),
            EdgeKind::Rising => (
                EncoderView { pressed_at: None, ..self },
                Ok(
                    (
                        if self.is_long_press(event.timestamp) {
                            self.name_long_press->0
                        } else {
                            self.name
                        },
                        false,
                    ),
                ),
            ),
            _ => (self, Err(UnexpectedEdgeKind(event.kind))),
        }
    }
}

impl View for Encoder {
    type V = EncoderView;

    closed spec fn view(&self) -> EncoderView {
        EncoderView {
            name: self.name@,
            name_long_press: match self.name_long_press {
                Some(s) => Some(s@),
                None => None,
            },
            pin: self.pin,
            long_press_threshold: self.long_press_threshold,
            pressed_at: self.pressed_at,
        }
    }
}

impl Encoder {
    /// A switch in simple mode times nothing.
    #[verifier::type_invariant]
    spec fn times_only_long_presses(self) -> bool {
        self.name_long_press is None ==> self.pressed_at is None
    }

    /// Creates a switch that is not pressed.
    ///
    /// With a long-press name the switch is in long-press mode, and
    /// `long_press_threshold` is the time in nanoseconds that a press has to
    /// exceed to be a long one.
    pub fn new(
        encoder_name: &str,
        encoder_name_long_press: Option<&str>,
        pin_number: u8,
        long_press_threshold: Option<u128>,
    ) -> (encoder: Self)
        ensures
            encoder@ == (EncoderView {
                name: encoder_name@,
                name_long_press: text_of(encoder_name_long_press),
                pin: pin_number,
                long_press_threshold,
                pressed_at: None,
            }),
    {
        let name_long_press = match encoder_name_long_press {
            Some(s) => Some(s.to_owned()),
            None => None,
        };
        Encoder {
            name: encoder_name.to_owned(),
            name_long_press,
            pin: pin_number,
            long_press_threshold,
            pressed_at: None,
        }
    }

    /// Feeds one event to the switch and says what to report for it.
    pub fn handle_edge<'a>(&'a mut self, event: EdgeEvent) -> (result: Result<
        (&'a str, bool),
        UnexpectedEdgeKind,
    >)
        ensures
            final(self)@ == old(self)@.step(event).0,
            match result {
                Ok((name, pressed)) => old(self)@.step(event).1 == Ok::<
                    (Seq<char>, bool),
                    UnexpectedEdgeKind,
                >((name@, pressed)),
                Err(e) => old(self)@.step(event).1 == Err::<(Seq<char>, bool), UnexpectedEdgeKind>(
                    e,
                ),
            },
    {
        proof {
            use_type_invariant(&*self);
        }
        match event.kind {
            EdgeKind::Falling => {
                if self.name_long_press.is_some() {
                    self.pressed_at = Some(event.timestamp);
                }
                Ok((self.name.as_str(), true))
            },
            EdgeKind::Rising => {
                let long: bool = match (self.pressed_at, self.long_press_threshold) {
                    (Some(pressed_at), Some(threshold)) => event.timestamp >= pressed_at
                        && event.timestamp - pressed_at > threshold,
                    _ => false,
                };
                self.pressed_at = None;
                match &self.name_long_press {
                    Some(long_name) if long => Ok((long_name.as_str(), false)),
                    _ => Ok((self.name.as_str(), false)),
                }
            },
            _ => Err(UnexpectedEdgeKind(event.kind)),
        }
    }

    /// The name that presses and short releases are reported under.
    pub fn name(&self) -> (name: &str)
        ensures
            name@ == self@.name,
    {
        self.name.as_str()
    }

    /// The name that the release of a long press is reported under.
    pub fn name_long_press(&self) -> (name: Option<&str>)
        ensures
            text_of(name) == self@.name_long_press,
    {
        match &self.name_long_press {
            Some(s) => Some(s.as_str()),
            None => None,
        }
    }

    /// The pin of the switch.
    pub fn pin(&self) -> (pin: u8)
        ensures
            pin == self@.pin,
    {
        self.pin
    }

    /// How long a press may last, in nanoseconds, without being a long one.
    pub fn long_press_threshold(&self) -> (threshold: Option<u128>)
        ensures
            threshold == self@.long_press_threshold,
    {
        self.long_press_threshold
    }

    /// When the switch was pressed, if a press is being timed. A switch in
    /// simple mode never times a press.
    pub fn pressed_at(&self) -> (pressed_at: Option<u128>)
        ensures
            pressed_at == self@.pressed_at,
            !self@.long_press_mode() ==> pressed_at is None,
    {
        proof {
            use_type_invariant(self);
        }
        self.pressed_at
    }
}

/// In simple mode a press and the release that follows it are reported as
/// (name, pressed) and (name, released), in that order, whenever they happen,
/// and nothing is timed.
pub proof fn simple_mode_reports_press_then_release(
    switch: EncoderView,
    press: EdgeEvent,
    release: EdgeEvent,
)
    requires
        !switch.long_press_mode(),
        switch.pressed_at is None,
        press.kind == EdgeKind::Falling,
        release.kind == EdgeKind::Rising,
    ensures
        switch.step(press) == (switch, Ok::<(Seq<char>, bool), UnexpectedEdgeKind>((switch.name, true))),
        switch.step(press).0.step(release) == (
            switch,
            Ok::<(Seq<char>, bool), UnexpectedEdgeKind>((switch.name, false)),
        ),
{
}

/// In long-press mode the release that follows a press is reported under the
/// long-press name if and only if the switch was held for longer than the
/// threshold; otherwise under the base name. Either way the press is
/// forgotten.
pub proof fn release_is_long_iff_held_beyond_threshold(
    switch: EncoderView,
    threshold: u128,
    press: EdgeEvent,
    release: EdgeEvent,
)
    requires
        switch.long_press_mode(),
        switch.long_press_threshold == Some(threshold),
        press.kind == EdgeKind::Falling,
        release.kind == EdgeKind::Rising,
    ensures
        switch.step(press).1 == Ok::<(Seq<char>, bool), UnexpectedEdgeKind>((switch.name, true)),
        switch.step(press).0.step(release) == (
            EncoderView { pressed_at: None, ..switch },
            Ok::<(Seq<char>, bool), UnexpectedEdgeKind>(
                (
                    if held_for(press.timestamp, release.timestamp) > threshold {
                        switch.name_long_press->0
                    } else {
                        switch.name
                    },
                    false,
                ),
            ),
        ),
{
}

/// A release with no press on record is reported under the base name.
pub proof fn release_without_press_is_short(switch: EncoderView, release: EdgeEvent)
    requires
        switch.pressed_at is None,
        release.kind == EdgeKind::Rising,
    ensures
        switch.step(release) == (
            switch,
            Ok::<(Seq<char>, bool), UnexpectedEdgeKind>((switch.name, false)),
        ),
{
}

/// An event that is no edge is dropped: the switch stays as it was and
/// nothing is reported.
pub proof fn unexpected_event_is_dropped(switch: EncoderView, event: EdgeEvent)
    requires
        event.kind != EdgeKind::Falling,
        event.kind != EdgeKind::Rising,
    ensures
        switch.step(event) == (
            switch,
            Err::<(Seq<char>, bool), UnexpectedEdgeKind>(UnexpectedEdgeKind(event.kind)),
        ),
{
}

} // verus!
