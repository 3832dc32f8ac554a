use jeep::events::battery::{Aux, Battery};
use jeep::events::bus::{Bus, Wake};
use jeep::events::camera::Camera;
use jeep::events::control_panel::{Buttons, ControlPanel, Knobs, Warmers};
use jeep::events::datetime::DateTime;
use jeep::events::engine::{Engine, KPH, MPH};
use jeep::events::force::{Force, RoadFeedback};
use jeep::events::hvac::HVAC;
use jeep::events::ignition::Ignition;
use jeep::events::lights::{Dimmer, ParkingLights};
use jeep::events::odometer::Odometer;
use jeep::events::remote::{Remote, RemoteSource};
use jeep::events::steering_wheel;
use jeep::events::{FrontOrRear, OneOrMany, ParseError};
use jeep::Frame;

fn frame(id: u32, data: [u8; 8], len: u8) -> Frame {
    Frame::from_id_data_len(id, data, len).unwrap()
}

fn data_detail(e: ParseError) -> String {
    match e {
        ParseError::Data { detail, .. } => detail,
        other => panic!("expected a data error, got {:?}", other),
    }
}

#[test]
fn test_hvac_radio_ess() {
    let data = (Buttons::TRACTION_CONTROL | Buttons::MUTE).to_be_bytes();
    let frame = Frame::from_id_data_len(0x2d3, data, 8).unwrap();

    let parsed = Buttons::try_from(frame).unwrap();

    assert!(parsed.contains(Buttons::TRACTION_CONTROL));
    assert!(parsed.contains(Buttons::MUTE));
}

#[test]
fn test_warmers() {
    let bytes = Warmers::DRIVER_BUTT.to_be_bytes();
    let frame =
        Frame::from_id_data_len(0x2d4, [0, bytes[0], bytes[1], 0, 0, 0, 0, 0], 8).unwrap();
    let parsed = Warmers::try_from(frame).unwrap();

    assert_eq!(parsed.bits(), Warmers::DRIVER_BUTT);
}

#[test]
fn test_buttons() {
    let frame = Frame::from_id_data_len(
        0x2d3,
        (Buttons::TRACTION_CONTROL | Buttons::MUTE).to_be_bytes(),
        8,
    )
    .unwrap();

    if let ControlPanel::Buttons(pressed) = ControlPanel::try_from(frame).unwrap() {
        assert!(pressed.contains(Buttons::TRACTION_CONTROL));
        assert!(pressed.contains(Buttons::MUTE));
    } else {
        panic!("Buttons::try_from(frame: Frame) parsed incorrect id.");
    }

    let bytes = Warmers::DRIVER_BUTT.to_be_bytes();
    let frame =
        Frame::from_id_data_len(0x2d4, [0, bytes[0], bytes[1], 0, 0, 0, 0, 0], 8).unwrap();
    if let ControlPanel::Warmers(pressed) = ControlPanel::try_from(frame).unwrap() {
        assert!(pressed.contains(Warmers::DRIVER_BUTT));
        assert!(!pressed.contains(Warmers::PASSENGER_BUTT));
    } else {
        panic!("Buttons::try_from(frame: Frame) parsed incorrect id.");
    }
}

#[test]
fn test_correct_time() {
    let frame = Frame::from_id_data_len(0x350, [7, 34, 13, 7, 231, 1, 11, 1], 8).unwrap();
    let dt = DateTime::try_from(frame).unwrap();
    assert_eq!(dt.year(), 2023);
    assert_eq!(dt.month(), 1);
    assert_eq!(dt.day(), 11);
    assert_eq!(dt.hour(), 13);
    assert_eq!(dt.second(), 7);
}

#[test]
fn test_remote_parsing() {
    let frame = Frame::from_id_data_len(0x1c0, [0x21, 0, 0, 0, 0, 0, 0, 0], 6).unwrap();
    let remote = Remote::try_from(frame).unwrap();

    assert_eq!(remote, Remote::LockFrom(RemoteSource::KeyFob))
}

#[test]
fn stock_buttons_pressed() {
    let all_buttons_pressed =
        Frame::from_id_data_len(0x318, [0x00, 0x00, 0x00, 0xFF, 0xFF, 0x00, 0x00, 0x00], 8)
            .unwrap();
    let parsed = steering_wheel::Buttons::try_from(all_buttons_pressed).unwrap();
    assert_eq!(steering_wheel::Buttons::all(), parsed);
    assert_eq!(parsed.stock_buttons_pressed().bits(), steering_wheel::Buttons::STOCK_BUTTONS);
}

#[test]
fn buttons_reject_a_bit_without_a_flag() {
    let f = frame(0x2d3, 0x0000_0000_0000_0002u64.to_be_bytes(), 8);
    let e = Buttons::try_from(f).unwrap_err();
    assert_eq!(
        data_detail(e.clone()),
        "a bit was set for `Buttons` that doesn't correspond to a flag: [0, 0, 0, 0, 0, 0, 0, 2]"
    );
    assert_eq!(e.into_frame(), f);
    assert!(Buttons::from_bits(Buttons::ALL).is_some());
    assert!(Buttons::from_bits(Buttons::ALL | 0x8000_0000_0000_0000).is_none());
}

#[test]
fn warmers_reject_a_bit_without_a_flag() {
    let f = frame(0x2d4, [0, 0x80, 0, 0, 0, 0, 0, 0], 8);
    assert!(matches!(Warmers::try_from(f), Err(ParseError::Data { .. })));
    let steering = frame(0x2d4, [0, 0x40, 0x00, 0, 0, 0, 0, 0], 8);
    assert!(Warmers::try_from(steering).unwrap().contains(Warmers::STEERING_WHEEL));
}

#[test]
fn knobs_table() {
    let at = |v: u64| Knobs::try_from(frame(0x273, v.to_be_bytes(), 8));
    assert_eq!(at(0x0000_0A00_0000_0000).unwrap(), Knobs::FanDown);
    assert_eq!(at(0x0000_0500_0000_0000).unwrap(), Knobs::FanUp);
    assert_eq!(at(0x0000_0900_0000_0000).unwrap(), Knobs::FanUp);
    assert_eq!(data_detail(at(0x0000_0100_0000_0000).unwrap_err()), "unrecognized value for `Knobs`: 10000000000");
    let f = frame(0x273, [0; 8], 8);
    assert!(matches!(ControlPanel::try_from(f), Err(ParseError::Data { .. })));
    assert!(matches!(
        ControlPanel::try_from(frame(0x274, [0; 8], 8)),
        Err(ParseError::Id { .. })
    ));
}

#[test]
fn decoders_check_identifier_then_length() {
    let wrong_id = frame(0x1c1, [0x21, 0, 0, 0, 0, 0, 0, 0], 6);
    match Remote::try_from(wrong_id) {
        Err(ParseError::Id { frame }) => assert_eq!(frame, wrong_id),
        other => panic!("{:?}", other),
    }
    let wrong_len = frame(0x1c0, [0x21, 0, 0, 0, 0, 0, 0, 0], 8);
    match Remote::try_from(wrong_len) {
        Err(ParseError::Len { frame, expected }) => {
            assert_eq!(frame, wrong_len);
            assert_eq!(expected, 6);
        }
        other => panic!("{:?}", other),
    }
    assert!(matches!(
        Ignition::try_from(frame(0x122, [0; 8], 8)),
        Err(ParseError::Len { expected: 4, .. })
    ));
    assert!(matches!(
        Odometer::try_from(frame(0x3d2, [0; 8], 3)),
        Err(ParseError::Len { expected: 4, .. })
    ));
}

#[test]
fn remote_table() {
    let at = |b: u8| Remote::try_from(frame(0x1c0, [b, 0, 0, 0, 0, 0, 0, 0], 6));
    assert_eq!(at(0x00).unwrap(), Remote::Idle);
    assert_eq!(at(0x23).unwrap(), Remote::UnlockFrom(RemoteSource::KeyFob));
    assert_eq!(at(0x24).unwrap(), Remote::DoubleUnlock);
    assert_eq!(at(0x2E).unwrap(), Remote::PanicFrom(RemoteSource::KeyFob));
    assert_eq!(at(0x43).unwrap(), Remote::KeylessEntry);
    assert_eq!(at(0x69).unwrap(), Remote::StartFrom(RemoteSource::KeyFob));
    assert_eq!(at(0x81).unwrap(), Remote::LockFrom(RemoteSource::App));
    assert_eq!(at(0x83).unwrap(), Remote::UnlockFrom(RemoteSource::App));
    assert_eq!(at(0x6A).unwrap(), Remote::CancelStart);
    assert_eq!(
        data_detail(at(0x82).unwrap_err()),
        "byte at index 0 is not a known remote action: 82"
    );
}

#[test]
fn camera_table() {
    let at = |b: u8| Camera::try_from(frame(0x302, [b, 0, 0, 0, 0, 0, 0, 0], 8));
    assert_eq!(at(0x00).unwrap(), Camera::Off);
    assert_eq!(at(0x02).unwrap(), Camera::Reverse);
    assert_eq!(at(0x07).unwrap(), Camera::Cargo);
    assert_eq!(at(0x09).unwrap(), Camera::Initializing);
    assert_eq!(data_detail(at(0x2E).unwrap_err()), "unrecognized `Camera` byte at index 0: 46");
}

#[test]
fn ignition_table() {
    let at = |v: u32| Ignition::try_from(Frame::from_id_slice(0x122, &v.to_be_bytes()).unwrap());
    assert_eq!(at(0x0000_0000).unwrap(), Ignition::Off);
    assert_eq!(at(0x0001_0000).unwrap(), Ignition::Off);
    assert_eq!(at(0x0301_0000).unwrap(), Ignition::Kill);
    assert_eq!(at(0x0302_0000).unwrap(), Ignition::Kill);
    assert_eq!(at(0x0502_0000).unwrap(), Ignition::Acc);
    assert_eq!(at(0x1502_0000).unwrap(), Ignition::Acc);
    assert_eq!(at(0x4401_0000).unwrap(), Ignition::Run);
    assert_eq!(at(0x4402_0000).unwrap(), Ignition::Off);
    assert_eq!(at(0x4501_0000).unwrap(), Ignition::Off);
    assert_eq!(at(0x5d01_0000).unwrap(), Ignition::Off);
    assert_eq!(data_detail(at(0x0000_0001).unwrap_err()), "unrecognized `Ignition` value: 1");
}

#[test]
fn bus_wake_table() {
    let at = |b4: u8, b5: u8| Bus::try_from(frame(0x401, [0, 0, 0, 0, b4, b5, 0, 0], 8));
    assert_eq!(at(0x01, 0x03).unwrap(), Bus::Wake(Wake::Plug));
    assert_eq!(at(0x01, 0x04).unwrap(), Bus::Wake(Wake::Unplug));
    assert_eq!(at(0x0c, 0x06).unwrap(), Bus::Wake(Wake::HoodOpen));
    assert_eq!(at(0x0c, 0x07).unwrap(), Bus::Wake(Wake::HoodClose));
    assert_eq!(
        data_detail(at(0x0c, 0x03).unwrap_err()),
        "unrecognized `Bus` data at index 4: [0, 0, 0, 0, C, 3, 0, 0]"
    );
}

#[test]
fn battery_reading() {
    let f = Frame::from_id_slice(0x2c2, &[1, 2, 124, 4]).unwrap();
    let aux = Aux::try_from(f).unwrap();
    assert_eq!(aux.raw(), [1, 2, 124, 4]);
    assert_eq!(aux.raw_volts(), 124);
    assert_eq!(Battery::try_from(f).unwrap(), Battery::Aux(aux));
}

#[test]
fn hvac_and_odometer_readings() {
    let f = frame(0x33a, [0x17, 0x70, 0, 0, 0, 0, 0, 0], 8);
    match HVAC::try_from(f).unwrap() {
        HVAC::Cabin(t) => assert_eq!(t.raw(), 6000),
    }
    let f = Frame::from_id_slice(0x3d2, &[0x00, 0x12, 0xD6, 0x87]).unwrap();
    assert_eq!(Odometer::try_from(f).unwrap().raw(), 1_234_567);
}

#[test]
fn engine_readings() {
    assert_eq!(MPH::from(3u8).raw(), 600);
    assert_eq!(MPH::from(255u8).raw(), 51_000);
    assert_eq!(KPH::from(MPH::from(3u8)).raw(), 600);
    let f = frame(0x340, [0, 0, 0, 0, 0, 0, 0, 65], 8);
    match Engine::try_from(f).unwrap() {
        OneOrMany::One(Engine::MPH(m)) => assert_eq!(m.raw(), 13_000),
        other => panic!("{:?}", other),
    }
    assert!(matches!(
        MPH::try_from(frame(0x340, [0; 8], 7)),
        Err(ParseError::Len { expected: 8, .. })
    ));
    assert!(matches!(MPH::try_from(frame(0x341, [0; 8], 8)), Err(ParseError::Id { .. })));
    let off = frame(0x322, [0xFF, 0xFF, 0, 0, 0, 0, 0, 0], 8);
    match Engine::try_from(off).unwrap() {
        OneOrMany::Many(v) => match v[0] {
            Engine::RPMs(r) => {
                assert!(r.engine_is_off());
                assert!(!r.engine_is_on());
                assert_eq!(r.get(), None);
                assert_eq!(r.raw(), 0xFFFF);
            }
            other => panic!("{:?}", other),
        },
        other => panic!("{:?}", other),
    }
}

#[test]
fn rpms_when_running() {
    let f = frame(0x322, [0x03, 0x20, 0, 0, 0, 0, 0, 0], 8);
    match Engine::try_from(f).unwrap() {
        OneOrMany::Many(v) => {
            assert_eq!(v.len(), 2);
            match v[0] {
                Engine::RPMs(r) => {
                    assert!(r.engine_is_on());
                    assert_eq!(r.get(), Some(800));
                }
                other => panic!("{:?}", other),
            }
        }
        other => panic!("{:?}", other),
    }
}

#[test]
fn force_front_and_rear() {
    let data = [1, 2, 3, 4, 5, 6, 7, 8];
    let front = Force::try_from(frame(0x24e, data, 8)).unwrap();
    let rear = Force::try_from(frame(0x252, data, 8)).unwrap();
    assert!(matches!(front, Force::RoadFeedback(FrontOrRear::Front(_))));
    assert!(matches!(rear, Force::RoadFeedback(FrontOrRear::Rear(_))));
    assert_ne!(front, rear);
    assert!(matches!(
        FrontOrRear::<RoadFeedback>::try_from(frame(0x24e, data, 7)),
        Err(ParseError::Len { expected: 8, .. })
    ));
    assert!(matches!(
        FrontOrRear::<RoadFeedback>::try_from(frame(0x24f, data, 8)),
        Err(ParseError::Id { .. })
    ));
    // The identifier is checked before the length.
    assert!(matches!(
        FrontOrRear::<RoadFeedback>::try_from(frame(0x123, data, 1)),
        Err(ParseError::Id { .. })
    ));
}

#[test]
fn lights_values() {
    let on = ParkingLights::try_from(frame(0x2fa, [0, 1, 0, 0, 0, 0, 0, 0], 8)).unwrap();
    assert!(on.are_on());
    assert!(!on.are_off());
    let off = ParkingLights::try_from(frame(0x2fa, [0, 0, 0, 0, 0, 0, 0, 0], 8)).unwrap();
    assert!(off.are_off());
    assert_eq!(
        data_detail(
            ParkingLights::try_from(frame(0x2fa, [0, 2, 0, 0, 0, 0, 0, 0], 8)).unwrap_err()
        ),
        "`ParkingLights` value at index 1 was neither 0 nor 1: 2"
    );
    let max = Dimmer::try_from(frame(0x2fa, [0, 0, 255, 0, 0, 0, 0, 0], 8)).unwrap();
    assert!(max.is_max());
    assert!(!max.is_min());
    let min = Dimmer::try_from(frame(0x2fa, [0, 0, 0, 0, 0, 0, 0, 0], 8)).unwrap();
    assert!(min.is_min());
    assert_eq!(min.raw(), Dimmer::MIN);
}

#[test]
fn datetime_rejects_days_and_times_that_do_not_exist() {
    let at = |d: [u8; 8]| DateTime::try_from(frame(0x350, d, 8));
    // 2023-02-29 does not exist; 2024-02-29 does.
    assert_eq!(data_detail(at([0, 0, 0, 0x07, 0xE7, 2, 29, 0]).unwrap_err()), "invalid date");
    let leap = at([0, 0, 0, 0x07, 0xE8, 2, 29, 0]).unwrap();
    assert_eq!((leap.year(), leap.month(), leap.day()), (2024, 2, 29));
    assert_eq!(data_detail(at([0, 0, 0, 0x07, 0xE7, 13, 1, 0]).unwrap_err()), "invalid date");
    assert_eq!(data_detail(at([0, 0, 24, 0x07, 0xE7, 1, 1, 0]).unwrap_err()), "invalid time");
    assert_eq!(data_detail(at([60, 0, 0, 0x07, 0xE7, 1, 1, 0]).unwrap_err()), "invalid time");
    let late = at([59, 59, 23, 0x07, 0xE7, 12, 31, 0]).unwrap();
    assert_eq!((late.hour(), late.minute(), late.second()), (23, 59, 59));
}

#[test]
fn parse_error_messages() {
    let f = Frame::from_id_slice(0x999, &[1, 0xAB]).unwrap();
    let e = ParseError::Id { frame: f };
    assert_eq!(
        e.message(),
        "Frame id `0x199` not recognized (data: `[\n    0x1,\n    0xAB,\n]`)."
    );
    let empty = ParseError::Id { frame: Frame::from_id_slice(5, &[]).unwrap() };
    assert_eq!(empty.message(), "Frame id `0x5` not recognized (data: `[]`).");
    assert_eq!(e.reason(), "unrecognized identifier");
    let e = ParseError::Len { frame: f, expected: 8 };
    assert_eq!(
        e.message(),
        "Frame's length (2); unexpected from source `0x199` (expected: 8)."
    );
    assert_eq!(e.reason(), "unexpected length");
    let e = ParseError::Data { frame: f, detail: "bad".to_string() };
    assert_eq!(
        e.message(),
        "Frame from source id `0x199` with data `[\n    0x1,\n    0xAB,\n]` failed validation because: bad"
    );
    assert_eq!(Frame::from(e), f);
}
