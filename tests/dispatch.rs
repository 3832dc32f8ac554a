use jeep::events::control_panel::{Buttons, ControlPanel};
use jeep::events::doors::Doors;
use jeep::events::engine::Engine;
use jeep::events::lights::Lights;
use jeep::events::locks::Locks;
use jeep::events::remote::{Remote, RemoteSource};
use jeep::events::{CanFrameError, OneOrMany, ParseError};
use jeep::{Event, Frame};

const KNOWN_IDS: [u32; 17] = [
    0x2c2, 0x1c0, 0x122, 0x318, 0x2d3, 0x2d4, 0x273, 0x2fa, 0x24e, 0x252, 0x302, 0x322, 0x340,
    0x33a, 0x350, 0x3d2, 0x401,
];

fn frame(id: u32, data: [u8; 8], len: u8) -> Frame {
    Frame::from_id_data_len(id, data, len).unwrap()
}

#[test]
fn parse_routes_control_panel_buttons() {
    let data = (Buttons::TRACTION_CONTROL | Buttons::MUTE).to_be_bytes();
    match Event::parse(frame(0x2d3, data, 8)).unwrap() {
        OneOrMany::One(Event::ControlPanel(ControlPanel::Buttons(b))) => {
            assert!(b.contains(Buttons::TRACTION_CONTROL));
            assert!(b.contains(Buttons::MUTE));
            assert_eq!(b.bits(), Buttons::TRACTION_CONTROL | Buttons::MUTE);
        }
        other => panic!("{:?}", other),
    }
}

#[test]
fn parse_routes_remote_lock() {
    let f = Frame::from_id_slice(0x1c0, &[0x21, 0, 0, 0, 0, 0]).unwrap();
    assert_eq!(
        Event::parse(f).unwrap(),
        OneOrMany::One(Event::Remote(Remote::LockFrom(RemoteSource::KeyFob)))
    );
}

#[test]
fn parse_routes_date_and_time() {
    match Event::parse(frame(0x350, [7, 34, 13, 7, 231, 1, 11, 1], 8)).unwrap() {
        OneOrMany::One(Event::DateTime(dt)) => {
            assert_eq!((dt.year(), dt.month(), dt.day()), (2023, 1, 11));
            assert_eq!((dt.hour(), dt.minute(), dt.second()), (13, 34, 7));
        }
        other => panic!("{:?}", other),
    }
}

#[test]
fn body_frame_yields_four_events() {
    let all_doors = Doors::ALL_JEEP_DOORS;
    let all_locks = Locks::ALL_JEEP_DOORS;
    let f = frame(0x2fa, [all_doors, 1, 128, all_locks, 0, 0, 0, 0], 8);
    let events = match Event::parse(f).unwrap() {
        OneOrMany::Many(v) => v,
        other => panic!("{:?}", other),
    };
    assert_eq!(events.len(), 4);
    let mut seen = [false; 4];
    for event in events {
        match event {
            Event::Doors(d) => {
                assert_eq!(d.bits(), all_doors);
                assert!(d.any_open());
                assert!(!d.all_closed());
                seen[0] = true;
            }
            Event::Lights(Lights::ParkingLights(p)) => {
                assert!(p.are_on());
                seen[1] = true;
            }
            Event::Lights(Lights::Dimmer(d)) => {
                assert_eq!(d.raw(), 128);
                seen[2] = true;
            }
            Event::Locks(l) => {
                assert_eq!(l.bits(), all_locks);
                assert!(l.any_unlocked());
                assert!(!l.all_locked());
                seen[3] = true;
            }
            other => panic!("{:?}", other),
        }
    }
    assert_eq!(seen, [true; 4]);
}

#[test]
fn body_failure_is_reported_whole() {
    let f = frame(0x2fa, [0, 2, 0, 0, 0, 0, 0, 0], 8);
    match Event::parse(f) {
        Err(ParseError::Data { frame, detail }) => {
            assert_eq!(frame, f);
            assert_eq!(
                detail,
                "there were error(s) decoding a frame from `0x2fa`: \
                 `ParkingLights` value at index 1 was neither 0 nor 1: 2"
            );
        }
        other => panic!("{:?}", other),
    }
    assert!(matches!(
        Event::parse(frame(0x2fa, [0; 8], 4)),
        Err(ParseError::Len { expected: 8, .. })
    ));
}

#[test]
fn engine_frame_yields_two_readings() {
    let events = match Event::parse(frame(0x322, [0x27, 0x10, 0x00, 0x32, 0, 0, 0, 0], 8)).unwrap() {
        OneOrMany::Many(v) => v,
        other => panic!("{:?}", other),
    };
    assert_eq!(events.len(), 2);
    let mut rpms = None;
    let mut mph = None;
    for event in events {
        match event {
            Event::Engine(Engine::RPMs(r)) => rpms = r.get(),
            Event::Engine(Engine::ApproxMPH(m)) => mph = Some(m.raw()),
            other => panic!("{:?}", other),
        }
    }
    assert_eq!(rpms, Some(10000));
    // 50 is 200 times 0.25 mph.
    assert_eq!(mph, Some(50));
}

#[test]
fn unassigned_identifier_comes_back_unchanged() {
    let f = Frame::from_id_slice(0x999, &[1, 2, 3]).unwrap();
    match Event::parse(f) {
        Err(ParseError::Id { frame }) => {
            assert_eq!(frame.raw_id(), 0x999);
            assert_eq!(frame.data(), &[1, 2, 3]);
            assert_eq!(frame, f);
        }
        other => panic!("{:?}", other),
    }
}

#[test]
fn dispatch_covers_exactly_the_known_identifiers() {
    for id in 0..0x800u32 {
        // A length no decoder expects: known identifiers fail on length,
        // the others as unrecognized.
        let result = Event::parse(frame(id, [0; 8], 1));
        if KNOWN_IDS.contains(&id) {
            assert!(matches!(result, Err(ParseError::Len { .. })), "{:#x}: {:?}", id, result);
        } else {
            assert!(matches!(result, Err(ParseError::Id { .. })), "{:#x}: {:?}", id, result);
        }
    }
}

#[test]
fn every_door_pattern_decodes() {
    for b in 0..=255u8 {
        assert_eq!(Doors::from_bits(b).unwrap().bits(), b);
        assert_eq!(Locks::from_bits(b).unwrap().bits(), b);
        let events = Event::parse(frame(0x2fa, [b, 0, 0, b, 0, 0, 0, 0], 8)).unwrap();
        let events = events.into_vec();
        assert!(events.contains(&Event::Doors(Doors::from_bits(b).unwrap())));
        assert!(events.contains(&Event::Locks(Locks::from_bits(b).unwrap())));
    }
}

#[test]
fn every_steering_wheel_pattern_decodes() {
    for v in 0..=u16::MAX {
        let [hi, lo] = v.to_be_bytes();
        match Event::parse(frame(0x318, [0, 0, 0, hi, lo, 0, 0, 0], 8)).unwrap() {
            OneOrMany::One(Event::SteeringWheel(b)) => assert_eq!(b.bits(), v),
            other => panic!("{:?}", other),
        }
    }
}

#[test]
fn engine_speed_frame_is_one_event() {
    assert_eq!(
        Event::parse(frame(0x340, [0, 0, 0, 0, 0, 0, 0, 1], 8)).unwrap().into_vec().len(),
        1
    );
}

#[test]
fn raw_frames_are_checked_then_decoded() {
    assert!(matches!(
        OneOrMany::<Event>::try_from_raw(0x1c0, [0x21, 0, 0, 0, 0, 0, 0, 0], 9),
        Err(CanFrameError::BadLen(_))
    ));
    assert_eq!(
        OneOrMany::<Event>::try_from_raw(0x1c0, [0x21, 0, 0, 0, 0, 0, 7, 7], 6).unwrap(),
        OneOrMany::One(Event::Remote(Remote::LockFrom(RemoteSource::KeyFob)))
    );
    match OneOrMany::<Event>::try_from_raw(0x999, [1, 2, 3, 0, 0, 0, 0, 0], 3) {
        Err(CanFrameError::ParseError(ParseError::Id { frame })) => {
            assert_eq!(frame.data(), &[1, 2, 3]);
        }
        other => panic!("{:?}", other),
    }
}
