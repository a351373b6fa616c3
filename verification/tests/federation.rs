use normally_closed::config::DoorConfig;
use normally_closed::config::GarageConfig;
use normally_closed::config::RelayConfig;
use normally_closed::garage::create_garage;
use normally_closed::garage::Button;
use normally_closed::garage::DoorAction;
use normally_closed::garage::DoorControl;
use normally_closed::garage::Garage;
use normally_closed::gpio::LoggingGpio;
use normally_closed::gpio::LoggingGpioPin;
use normally_closed::sync::action_path;
use normally_closed::sync::action_url;
use normally_closed::sync::decimal;
use normally_closed::sync::doors_from_listing;
use normally_closed::sync::listing_url;
use normally_closed::sync::garage_json;
use normally_closed::sync::DoorJson;
use normally_closed::sync::GarageJson;

fn local_garage() -> Garage<LoggingGpioPin> {
    let gpio = LoggingGpio::new();
    let config = GarageConfig {
        version: 0,
        secondary_hosts: vec![],
        relays: RelayConfig::PinBased { pins: vec![11, 13, 15] },
        doors: vec![
            DoorConfig::ToggleButton { name: "Main".to_string(), relay: 1 },
            DoorConfig::DiscreteButtons {
                name: "Side".to_string(),
                open_relay: 2,
                close_relay: 3,
                stop_relay: None,
            },
        ],
    };
    create_garage(&gpio, &config).ok().unwrap()
}

#[test]
fn action_endpoint_path_segments() {
    assert_eq!(action_path(DoorAction::Toggle), "toggle");
    assert_eq!(action_path(DoorAction::Open), "open");
    assert_eq!(action_path(DoorAction::Close), "close");
    assert_eq!(action_path(DoorAction::Stop), "stop");
}

#[test]
fn decimal_rendering() {
    assert_eq!(decimal(0), "0");
    assert_eq!(decimal(7), "7");
    assert_eq!(decimal(10), "10");
    assert_eq!(decimal(31415), "31415");
    assert_eq!(decimal(usize::MAX), usize::MAX.to_string());
}

#[test]
fn endpoint_urls() {
    assert_eq!(
        action_url("http://h1:31415", 12, DoorAction::Open),
        "http://h1:31415/door/12/open"
    );
    assert_eq!(action_url("h", 0, DoorAction::Toggle), "h/door/0/toggle");
    assert_eq!(listing_url("http://h1:31415"), "http://h1:31415/doors.json");
}

#[test]
fn listing_reports_name_kind_and_stop() {
    let garage = local_garage();
    let listing = garage_json(&garage);
    assert_eq!(
        listing,
        GarageJson {
            version: 0,
            doors: vec![
                DoorJson::Toggle { name: "Main".to_string() },
                DoorJson::Discrete { name: "Side".to_string(), stop_button: false },
            ],
        }
    );
}

#[test]
fn listing_doors_become_remote_doors() {
    let host = "http://h1:31415".to_string();
    let listing = GarageJson {
        version: 0,
        doors: vec![
            DoorJson::Toggle { name: "North".to_string() },
            DoorJson::Discrete { name: "South".to_string(), stop_button: true },
        ],
    };
    let doors: Vec<_> = doors_from_listing::<LoggingGpioPin>(&host, &listing);
    assert_eq!(doors.len(), 2);
    assert_eq!(doors[0].name, "North");
    assert_eq!(doors[0].host.as_deref(), Some("http://h1:31415"));
    match &doors[0].control {
        DoorControl::Toggle { button: Button::Remote { host: h, door_index, action } } => {
            assert_eq!(h, "http://h1:31415");
            assert_eq!(*door_index, 0);
            assert_eq!(*action, DoorAction::Toggle);
        }
        _ => panic!("expected a remote toggle door"),
    }
    assert_eq!(doors[1].name, "South");
    match &doors[1].control {
        DoorControl::Discrete { open_button, close_button, stop_button } => {
            match open_button {
                Button::Remote { host: h, door_index, action } => {
                    assert_eq!(h, "http://h1:31415");
                    assert_eq!(*door_index, 1);
                    assert_eq!(*action, DoorAction::Open);
                }
                Button::Gpio { .. } => panic!("expected a remote button"),
            }
            match close_button {
                Button::Remote { door_index, action, .. } => {
                    assert_eq!(*door_index, 1);
                    assert_eq!(*action, DoorAction::Close);
                }
                Button::Gpio { .. } => panic!("expected a remote button"),
            }
            match stop_button {
                Some(Button::Remote { door_index, action, .. }) => {
                    assert_eq!(*door_index, 1);
                    assert_eq!(*action, DoorAction::Stop);
                }
                _ => panic!("expected a remote stop button"),
            }
        }
        DoorControl::Toggle { .. } => panic!("expected a discrete door"),
    }
}

#[test]
fn listing_without_stop_gives_no_stop_button() {
    let host = "h".to_string();
    let listing = GarageJson {
        version: 0,
        doors: vec![DoorJson::Discrete { name: "D".to_string(), stop_button: false }],
    };
    let doors = doors_from_listing::<LoggingGpioPin>(&host, &listing);
    match &doors[0].control {
        DoorControl::Discrete { stop_button, .. } => assert!(stop_button.is_none()),
        DoorControl::Toggle { .. } => panic!("expected a discrete door"),
    }
}

fn three_door_listing() -> GarageJson {
    GarageJson {
        version: 0,
        doors: vec![
            DoorJson::Toggle { name: "A".to_string() },
            DoorJson::Toggle { name: "B".to_string() },
            DoorJson::Discrete { name: "C".to_string(), stop_button: true },
        ],
    }
}

#[test]
fn cycle_with_unreachable_host_keeps_reachable_doors() {
    let mut garage = local_garage();
    let local_count = garage.doors.len();
    let hosts = vec!["h1".to_string(), "h2".to_string()];
    let listings = vec![Some(three_door_listing()), None];
    garage.sync_cycle(local_count, &hosts, &listings);
    assert_eq!(garage.doors.len(), local_count + 3);
    assert_eq!(garage.doors[0].name, "Main");
    assert_eq!(garage.doors[1].name, "Side");
    for door in &garage.doors[local_count..] {
        assert_eq!(door.host.as_deref(), Some("h1"));
    }
    assert_eq!(garage.doors[local_count].name, "A");
    assert_eq!(garage.doors[local_count + 1].name, "B");
    assert_eq!(garage.doors[local_count + 2].name, "C");
}

#[test]
fn next_cycle_discards_previous_remote_set() {
    let mut garage = local_garage();
    let local_count = garage.doors.len();
    let hosts = vec!["h1".to_string(), "h2".to_string()];
    garage.sync_cycle(local_count, &hosts, &vec![Some(three_door_listing()), None]);
    assert_eq!(garage.doors.len(), local_count + 3);

    let second = vec![
        Some(GarageJson {
            version: 0,
            doors: vec![DoorJson::Toggle { name: "A".to_string() }],
        }),
        Some(GarageJson {
            version: 0,
            doors: vec![
                DoorJson::Toggle { name: "X".to_string() },
                DoorJson::Discrete { name: "Y".to_string(), stop_button: false },
            ],
        }),
    ];
    garage.sync_cycle(local_count, &hosts, &second);
    assert_eq!(garage.doors.len(), local_count + 1 + 2);
    assert_eq!(garage.doors[local_count].name, "A");
    assert_eq!(garage.doors[local_count].host.as_deref(), Some("h1"));
    assert_eq!(garage.doors[local_count + 1].name, "X");
    assert_eq!(garage.doors[local_count + 1].host.as_deref(), Some("h2"));
    assert_eq!(garage.doors[local_count + 2].name, "Y");
    assert_eq!(garage.doors[local_count + 2].host.as_deref(), Some("h2"));
}

#[test]
fn cycle_with_no_listings_clears_remote_doors() {
    let mut garage = local_garage();
    let local_count = garage.doors.len();
    let hosts = vec!["h1".to_string()];
    garage.sync_cycle(local_count, &hosts, &vec![Some(three_door_listing())]);
    assert_eq!(garage.doors.len(), local_count + 3);
    garage.sync_cycle(local_count, &hosts, &vec![None]);
    assert_eq!(garage.doors.len(), local_count);
}

#[test]
fn pressing_a_remote_door_changes_nothing_locally() {
    let mut garage = local_garage();
    let local_count = garage.doors.len();
    let hosts = vec!["h1".to_string()];
    garage.sync_cycle(local_count, &hosts, &vec![Some(three_door_listing())]);
    let r = garage.press_button(local_count, DoorAction::Toggle);
    assert!(r.is_ok());
    let r = garage.release_button(local_count, DoorAction::Toggle);
    assert!(r.is_ok());
    match &garage.doors[0].control {
        DoorControl::Toggle { button: Button::Gpio { pin } } => {
            assert_eq!(pin.levels(), &Vec::<bool>::new());
        }
        _ => panic!("expected a local toggle door"),
    }
}

#[test]
fn listing_of_remote_doors_keeps_kind_and_stop() {
    let mut garage = local_garage();
    let local_count = garage.doors.len();
    let hosts = vec!["h1".to_string()];
    garage.sync_cycle(local_count, &hosts, &vec![Some(three_door_listing())]);
    let listing = garage_json(&garage);
    assert_eq!(listing.doors.len(), local_count + 3);
    assert_eq!(listing.doors[local_count], DoorJson::Toggle { name: "A".to_string() });
    assert_eq!(
        listing.doors[local_count + 2],
        DoorJson::Discrete { name: "C".to_string(), stop_button: true }
    );
}
