use rotary_switch_helper::interrupt::{EdgeEvent, EdgeKind};
use rotary_switch_helper::rotary_encoder::{Direction, Pin};
use rotary_switch_helper::{EncoderType, PiInput, RotaryDefinition, SwitchDefinition};

fn rotary(name: &str, name_shifted: Option<&str>, sw_pin: Option<u8>, dt_pin: u8) -> RotaryDefinition {
    RotaryDefinition {
        name: name.to_string(),
        name_shifted: name_shifted.map(|s| s.to_string()),
        sw_pin,
        dt_pin,
        clk_pin: dt_pin + 1,
    }
}

#[test]
fn encoder_types_are_told_apart() {
    assert_eq!(format!("{:?}", EncoderType::Rotary), "Rotary");
    assert_eq!(format!("{:?}", EncoderType::Switch), "Switch");
}

#[test]
fn no_definitions_give_no_decoders() {
    let (rotaries, switches) = PiInput::new(&[], &[]).into_parts();
    assert!(rotaries.is_empty());
    assert!(switches.is_empty());
}

#[test]
fn one_fresh_decoder_per_definition_in_order() {
    let rotaries = vec![
        rotary("volume", None, None, 9),
        rotary("tuner", Some("band"), Some(11), 20),
    ];
    let switches = vec![
        SwitchDefinition {
            name: "mute".to_string(),
            name_long_press: None,
            sw_pin: 5,
            long_press_threshold: None,
        },
        SwitchDefinition {
            name: "power".to_string(),
            name_long_press: Some("shutdown".to_string()),
            sw_pin: 6,
            long_press_threshold: Some(4_000_000_000),
        },
        SwitchDefinition {
            name: "eject".to_string(),
            name_long_press: None,
            sw_pin: 7,
            long_press_threshold: Some(1),
        },
    ];
    let (rot_encoders, sw_encoders) = PiInput::new(&switches, &rotaries).into_parts();

    assert_eq!(rot_encoders.len(), 2);
    assert_eq!(rot_encoders[0].name(), "volume");
    assert_eq!(rot_encoders[0].name_shifted(), None);
    assert_eq!(rot_encoders[0].sw_pin(), None);
    assert_eq!(rot_encoders[0].dt_pin(), 9);
    assert_eq!(rot_encoders[0].clk_pin(), 10);
    assert_eq!(rot_encoders[1].name(), "tuner");
    assert_eq!(rot_encoders[1].name_shifted(), Some("band"));
    assert_eq!(rot_encoders[1].sw_pin(), Some(11));
    assert_eq!(rot_encoders[1].dt_pin(), 20);
    assert_eq!(rot_encoders[1].clk_pin(), 21);
    for encoder in &rot_encoders {
        assert_eq!(encoder.state(), 0);
        assert_eq!(encoder.direction(), Direction::Unknown);
    }

    assert_eq!(sw_encoders.len(), 3);
    assert_eq!(sw_encoders[0].name(), "mute");
    assert_eq!(sw_encoders[0].name_long_press(), None);
    assert_eq!(sw_encoders[0].pin(), 5);
    assert_eq!(sw_encoders[0].long_press_threshold(), None);
    assert_eq!(sw_encoders[1].name(), "power");
    assert_eq!(sw_encoders[1].name_long_press(), Some("shutdown"));
    assert_eq!(sw_encoders[1].pin(), 6);
    assert_eq!(sw_encoders[1].long_press_threshold(), Some(4_000_000_000));
    assert_eq!(sw_encoders[2].name(), "eject");
    assert_eq!(sw_encoders[2].pin(), 7);
    assert_eq!(sw_encoders[2].long_press_threshold(), Some(1));
    for encoder in &sw_encoders {
        assert_eq!(encoder.pressed_at(), None);
    }
}

#[test]
fn decoders_of_one_input_do_not_share_state() {
    let rotaries = vec![rotary("left", None, None, 9), rotary("right", None, None, 20)];
    let (mut rot_encoders, _) = PiInput::new(&[], &rotaries).into_parts();
    let falling = EdgeEvent {
        timestamp: 0,
        seqno: 0,
        kind: EdgeKind::Falling,
    };
    assert_eq!(rot_encoders[0].handle_edge(Pin::Clk, falling), Ok(None));
    assert_eq!(rot_encoders[0].state(), 0b01);
    assert_eq!(rot_encoders[0].direction(), Direction::Clockwise);
    assert_eq!(rot_encoders[1].state(), 0b00);
    assert_eq!(rot_encoders[1].direction(), Direction::Unknown);
}
