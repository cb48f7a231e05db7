//! Decoders for quadrature rotary encoders and momentary switches.
//!
//! The crate turns edges on input pins into turns, presses, releases and long
//! presses. It holds no pin and subscribes to nothing: the owner of the pins
//! feeds each edge to the decoder of its device and acts on what comes back.

use vstd::prelude::*;

pub mod interrupt;
pub mod quadrature;
pub mod rotary_encoder;
pub mod switch_encoder;

verus! {

/// The kinds of input device this crate decodes.
#[derive(Debug)]
pub enum EncoderType {
    Rotary,
    Switch,
}

/// The configuration of one switch.
#[derive(Debug)]
pub struct SwitchDefinition {
    /// The name that presses and releases are reported under.
    pub name: String,
    /// The name that the release of a long press is reported under.
    pub name_long_press: Option<String>,
    /// The pin of the switch.
    pub sw_pin: u8,
    /// How long a press may last, in nanoseconds, without being a long one.
    pub long_press_threshold: Option<u128>,
}

/// The configuration of one rotary encoder.
#[derive(Debug)]
pub struct RotaryDefinition {
    /// The name that turns are reported under.
    pub name: String,
    /// The name that turns are reported under while the switch is held.
    pub name_shifted: Option<String>,
    /// The pin of the switch that selects the shifted name.
    pub sw_pin: Option<u8>,
    /// The pin of the DT line.
    pub dt_pin: u8,
    /// The pin of the CLK line.
    pub clk_pin: u8,
}

/// The text of an optional name.
pub open spec fn text_of(name: Option<&str>) -> Option<Seq<char>> {
    match name {
        Some(s) => Some(s@),
        None => None,
    }
}

/// The text of an optional owned name.
pub open spec fn name_text(name: Option<String>) -> Option<Seq<char>> {
    match name {
        Some(s) => Some(s@),
        None => None,
    }
}

/// Borrows an optional owned name.
fn borrow_name(name: &Option<String>) -> (borrowed: Option<&str>)
    ensures
        text_of(borrowed) == name_text(*name),
{
    match name {
        Some(s) => Some(s.as_str()),
        None => None,
    }
}

impl SwitchDefinition {
    /// The switch that this definition describes, before any event.
    pub open spec fn fresh(&self) -> switch_encoder::EncoderView {
        switch_encoder::EncoderView {
            name: self.name@,
            name_long_press: name_text(self.name_long_press),
            pin: self.sw_pin,
            long_press_threshold: self.long_press_threshold,
            pressed_at: None,
        }
    }
}

impl RotaryDefinition {
    /// The encoder that this definition describes, before any edge: at rest,
    /// with no direction confirmed.
    pub open spec fn fresh(&self) -> rotary_encoder::EncoderView {
        rotary_encoder::EncoderView {
            name: self.name@,
            name_shifted: name_text(self.name_shifted),
            dt_pin: self.dt_pin,
            clk_pin: self.clk_pin,
            sw_pin: self.sw_pin,
            state: 0,
            direction: rotary_encoder::Direction::Unknown,
        }
    }
}

/// The decoders of a set of input devices.
pub struct PiInput {
    rot_encoders: Vec<rotary_encoder::Encoder>,
    sw_encoders: Vec<switch_encoder::Encoder>,
}

impl PiInput {
    /// The rotary encoders, in the order of their definitions.
    pub closed spec fn rotaries(&self) -> Seq<rotary_encoder::EncoderView> {
        self.rot_encoders@.map_values(|e: rotary_encoder::Encoder| e@)
    }

    /// The switches, in the order of their definitions.
    pub closed spec fn switches(&self) -> Seq<switch_encoder::EncoderView> {
        self.sw_encoders@.map_values(|e: switch_encoder::Encoder| e@)
    }

    /// Creates one fresh decoder for each definition.
    pub fn new(switches: &[SwitchDefinition], rotaries: &[RotaryDefinition]) -> (input: Self)
        ensures
            input.rotaries().len() == rotaries@.len(),
            forall|i: int|
                0 <= i < rotaries@.len() ==> #[trigger] input.rotaries()[i] == rotaries@[i].fresh(),
            input.switches().len() == switches@.len(),
            forall|i: int|
                0 <= i < switches@.len() ==> #[trigger] input.switches()[i] == switches@[i].fresh(),
    {
        let mut rot_encoders: Vec<rotary_encoder::Encoder> = Vec::new();
        let mut i: usize = 0;
        while i < rotaries.len()
            invariant
                i <= rotaries@.len(),
                rot_encoders@.len() == i,
                forall|j: int| 0 <= j < i ==> (#[trigger] rot_encoders@[j])@ == rotaries@[j].fresh(),
            decreases rotaries@.len() - i,
        {
            let r = &rotaries[i];
            rot_encoders.push(
                rotary_encoder::Encoder::new(
                    r.name.as_str(),
                    borrow_name(&r.name_shifted),
                    r.dt_pin,
                    r.clk_pin,
                    r.sw_pin,
                ),
            );
            i += 1;
        }
        let mut sw_encoders: Vec<switch_encoder::Encoder> = Vec::new();
        let mut k: usize = 0;
        while k < switches.len()
            invariant
                k <= switches@.len(),
                sw_encoders@.len() == k,
                forall|j: int| 0 <= j < k ==> (#[trigger] sw_encoders@[j])@ == switches@[j].fresh(),
            decreases switches@.len() - k,
        {
            let s = &switches[k];
            sw_encoders.push(
                switch_encoder::Encoder::new(
                    s.name.as_str(),
                    borrow_name(&s.name_long_press),
                    s.sw_pin,
                    s.long_press_threshold,
                ),
            );
            k += 1;
        }
        PiInput { rot_encoders, sw_encoders }
    }

    /// Hands the decoders out, rotary encoders first, each list in the order
    /// of its definitions.
    pub fn into_parts(self) -> (parts: (
        Vec<rotary_encoder::Encoder>,
        Vec<switch_encoder::Encoder>,
    ))
        ensures
            parts.0@.len() == self.rotaries().len(),
            forall|i: int| 0 <= i < parts.0@.len() ==> (#[trigger] parts.0@[i])@ == self.rotaries()[i],
            parts.1@.len() == self.switches().len(),
            forall|i: int| 0 <= i < parts.1@.len() ==> (#[trigger] parts.1@[i])@ == self.switches()[i],
    {
        (self.rot_encoders, self.sw_encoders)
    }
}

} // verus!
