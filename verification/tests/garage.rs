use normally_closed::config::ConfigError;
use normally_closed::config::DoorConfig;
use normally_closed::config::GarageConfig;
use normally_closed::config::RelayConfig;
use normally_closed::garage::create_garage;
use normally_closed::garage::Button;
use normally_closed::garage::DoorAction;
use normally_closed::garage::DoorControl;
use normally_closed::garage::Garage;
use normally_closed::garage::LookupError;
use normally_closed::gpio::GpioPin;
use normally_closed::gpio::LoggingGpio;
use normally_closed::gpio::LoggingGpioPin;

fn three_door_config() -> GarageConfig {
    GarageConfig {
        version: 0,
        secondary_hosts: vec![],
        relays: RelayConfig::PinBased { pins: vec![11, 13, 15, 17, 19, 21] },
        doors: vec![
            DoorConfig::ToggleButton { name: "Left".to_string(), relay: 1 },
            DoorConfig::DiscreteButtons {
                name: "Middle".to_string(),
                open_relay: 2,
                close_relay: 3,
                stop_relay: None,
            },
            DoorConfig::DiscreteButtons {
                name: "Right".to_string(),
                open_relay: 4,
                close_relay: 5,
                stop_relay: Some(6),
            },
        ],
    }
}

fn build(config: &GarageConfig) -> Garage<LoggingGpioPin> {
    let gpio = LoggingGpio::new();
    create_garage(&gpio, config).ok().unwrap()
}

#[test]
fn construction_builds_all_doors_in_order() {
    let garage = build(&three_door_config());
    assert_eq!(garage.doors.len(), 3);
    assert_eq!(garage.doors[0].name, "Left");
    assert_eq!(garage.doors[1].name, "Middle");
    assert_eq!(garage.doors[2].name, "Right");
    for door in &garage.doors {
        assert!(door.host.is_none());
    }
    assert!(matches!(garage.doors[0].control, DoorControl::Toggle { .. }));
    match &garage.doors[1].control {
        DoorControl::Discrete { stop_button, .. } => assert!(stop_button.is_none()),
        DoorControl::Toggle { .. } => panic!("expected a discrete door"),
    }
    match &garage.doors[2].control {
        DoorControl::Discrete { stop_button, .. } => assert!(stop_button.is_some()),
        DoorControl::Toggle { .. } => panic!("expected a discrete door"),
    }
}

#[test]
fn construction_wires_configured_pins() {
    let garage = build(&three_door_config());
    match &garage.doors[0].control {
        DoorControl::Toggle { button: Button::Gpio { pin } } => {
            assert_eq!(pin.pin(), 11);
            assert_eq!(pin.levels(), &Vec::<bool>::new());
        }
        _ => panic!("expected a local toggle door"),
    }
    match &garage.doors[2].control {
        DoorControl::Discrete { open_button, close_button, stop_button } => {
            match open_button {
                Button::Gpio { pin } => assert_eq!(pin.pin(), 17),
                Button::Remote { .. } => panic!("expected a local button"),
            }
            match close_button {
                Button::Gpio { pin } => assert_eq!(pin.pin(), 19),
                Button::Remote { .. } => panic!("expected a local button"),
            }
            match stop_button {
                Some(Button::Gpio { pin }) => assert_eq!(pin.pin(), 21),
                _ => panic!("expected a local stop button"),
            }
        }
        DoorControl::Toggle { .. } => panic!("expected a discrete door"),
    }
}

#[test]
fn unknown_board_fails_construction() {
    let gpio = LoggingGpio::new();
    let config = GarageConfig {
        version: 0,
        secondary_hosts: vec![],
        relays: RelayConfig::BoardBased { board: "example_board".to_string() },
        doors: vec![DoorConfig::ToggleButton { name: "Door".to_string(), relay: 1 }],
    };
    let r = create_garage(&gpio, &config);
    assert!(matches!(r, Err(ConfigError::UnknownBoard)));
}

#[test]
fn zero_doors_fails_construction() {
    let gpio = LoggingGpio::new();
    let config = GarageConfig {
        version: 0,
        secondary_hosts: vec![],
        relays: RelayConfig::PinBased { pins: vec![11, 13] },
        doors: vec![],
    };
    let r = create_garage(&gpio, &config);
    assert!(matches!(r, Err(ConfigError::NoDoors)));
}

#[test]
fn relay_overflow_fails_construction() {
    let gpio = LoggingGpio::new();
    let config = GarageConfig {
        version: 0,
        secondary_hosts: vec![],
        relays: RelayConfig::PinBased { pins: vec![11] },
        doors: vec![
            DoorConfig::ToggleButton { name: "One".to_string(), relay: 1 },
            DoorConfig::ToggleButton { name: "Two".to_string(), relay: 1 },
        ],
    };
    let r = create_garage(&gpio, &config);
    assert!(matches!(r, Err(ConfigError::RelayOverflow)));
}

#[test]
fn relay_index_out_of_range_fails_construction() {
    let gpio = LoggingGpio::new();
    let config = GarageConfig {
        version: 0,
        secondary_hosts: vec![],
        relays: RelayConfig::PinBased { pins: vec![11, 13, 15] },
        doors: vec![DoorConfig::ToggleButton { name: "Door".to_string(), relay: 5 }],
    };
    let r = create_garage(&gpio, &config);
    assert!(matches!(r, Err(ConfigError::RelayIndexOutOfRange)));
    let config = GarageConfig {
        version: 0,
        secondary_hosts: vec![],
        relays: RelayConfig::PinBased { pins: vec![11, 13, 15] },
        doors: vec![DoorConfig::ToggleButton { name: "Door".to_string(), relay: 0 }],
    };
    let r = create_garage(&gpio, &config);
    assert!(matches!(r, Err(ConfigError::RelayIndexOutOfRange)));
}

fn toggle_pin_levels(garage: &Garage<LoggingGpioPin>, id: usize) -> Vec<bool> {
    match &garage.doors[id].control {
        DoorControl::Toggle { button: Button::Gpio { pin } } => pin.levels().clone(),
        _ => panic!("expected a local toggle door"),
    }
}

fn discrete_pin_levels(garage: &Garage<LoggingGpioPin>, id: usize) -> (Vec<bool>, Vec<bool>, Vec<bool>) {
    match &garage.doors[id].control {
        DoorControl::Discrete { open_button, close_button, stop_button } => {
            let open = match open_button {
                Button::Gpio { pin } => pin.levels().clone(),
                Button::Remote { .. } => panic!("expected a local button"),
            };
            let close = match close_button {
                Button::Gpio { pin } => pin.levels().clone(),
                Button::Remote { .. } => panic!("expected a local button"),
            };
            let stop = match stop_button {
                Some(Button::Gpio { pin }) => pin.levels().clone(),
                Some(Button::Remote { .. }) => panic!("expected a local button"),
                None => vec![],
            };
            (open, close, stop)
        }
        DoorControl::Toggle { .. } => panic!("expected a discrete door"),
    }
}

#[test]
fn toggle_pulse_is_high_then_low() {
    let mut garage = build(&three_door_config());
    garage.press_button(0, DoorAction::Toggle).unwrap();
    assert_eq!(toggle_pin_levels(&garage, 0), vec![true]);
    garage.release_button(0, DoorAction::Toggle).unwrap();
    assert_eq!(toggle_pin_levels(&garage, 0), vec![true, false]);
}

#[test]
fn open_pulse_touches_only_open_relay() {
    let mut garage = build(&three_door_config());
    garage.press_button(2, DoorAction::Open).unwrap();
    garage.release_button(2, DoorAction::Open).unwrap();
    let (open, close, stop) = discrete_pin_levels(&garage, 2);
    assert_eq!(open, vec![true, false]);
    assert_eq!(close, Vec::<bool>::new());
    assert_eq!(stop, Vec::<bool>::new());
    assert_eq!(toggle_pin_levels(&garage, 0), Vec::<bool>::new());
}

#[test]
fn sequential_pulses_do_not_interleave() {
    let mut garage = build(&three_door_config());
    garage.press_button(0, DoorAction::Toggle).unwrap();
    garage.release_button(0, DoorAction::Toggle).unwrap();
    garage.press_button(0, DoorAction::Toggle).unwrap();
    garage.release_button(0, DoorAction::Toggle).unwrap();
    assert_eq!(toggle_pin_levels(&garage, 0), vec![true, false, true, false]);
}

#[test]
fn unsupported_actions_fail_lookup() {
    let mut garage = build(&three_door_config());
    assert_eq!(garage.button(0, DoorAction::Open).err(), Some(LookupError::UnsupportedAction));
    assert_eq!(garage.button(0, DoorAction::Close).err(), Some(LookupError::UnsupportedAction));
    assert_eq!(garage.button(0, DoorAction::Stop).err(), Some(LookupError::UnsupportedAction));
    assert_eq!(garage.button(1, DoorAction::Toggle).err(), Some(LookupError::UnsupportedAction));
    assert_eq!(garage.button(1, DoorAction::Stop).err(), Some(LookupError::UnsupportedAction));
    assert!(garage.button(1, DoorAction::Open).is_ok());
    assert!(garage.button(2, DoorAction::Stop).is_ok());
    assert_eq!(
        garage.press_button(1, DoorAction::Stop).err(),
        Some(LookupError::UnsupportedAction)
    );
    let (open, close, stop) = discrete_pin_levels(&garage, 1);
    assert_eq!(open, Vec::<bool>::new());
    assert_eq!(close, Vec::<bool>::new());
    assert_eq!(stop, Vec::<bool>::new());
}

#[test]
fn missing_door_fails_lookup() {
    let mut garage = build(&three_door_config());
    assert_eq!(garage.button(3, DoorAction::Toggle).err(), Some(LookupError::NoSuchDoor));
    assert_eq!(garage.press_button(9, DoorAction::Open).err(), Some(LookupError::NoSuchDoor));
}
