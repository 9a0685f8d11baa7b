//! The binary encoding and the record framing, through the public API.

use coherent_rs::laser::{LaserState, LaserType, ShutterState, TuningStatus};
use coherent_rs::laser::discoverynx::{DiscoveryLaser, DiscoveryNXCommands, DiscoveryNXStatus};
use coherent_rs::laser::debug::DebugLaser;
use coherent_rs::encoding::{encode_command, encode_laser_type, decode_command, decode_laser_type};
use coherent_rs::framing::{decode_command_record, decode_laser_id, decode_status_record,
    frame_command, frame_laser_id, frame_status, frame_status_payload, status_marker};
use coherent_rs::units::Milli;

fn sample_status() -> DiscoveryNXStatus {
    DiscoveryNXStatus {
        echo: true,
        laser: LaserState::On,
        variable_shutter: ShutterState::Open,
        fixed_shutter: ShutterState::Closed,
        keyswitch: true,
        faults: 0,
        fault_text: "No faults".to_string(),
        tuning: TuningStatus::Ready,
        alignment_var: true,
        alignment_fixed: false,
        status: "Ready".to_string(),
        wavelength: Milli { milli: 840_000 },
        power_var: Milli { milli: 100_000 },
        power_fixed: Milli { milli: 100_000 },
        gdd_curve: 0,
        gdd_curve_n: "Test".to_string(),
        gdd: Milli { milli: 0 },
    }
}

#[test]
fn test_serde_laser_type() {
    let laser_type = LaserType::DiscoveryNX;
    let mut buf = Vec::new();
    encode_laser_type(&mut buf, laser_type);

    let (laser_type_deserialized, _) = decode_laser_type(buf.as_slice(), 0).unwrap();
    assert_eq!(laser_type, laser_type_deserialized);
}

#[test]
fn debug_test_serde_command() {
    let command = DiscoveryNXCommands::Echo { echo_on: true };

    let mut buf = Vec::new();
    encode_command(&mut buf, &command);

    println!("Serialized : {:?}", buf);

    match decode_command(buf.as_slice(), 0) {
        Some((DiscoveryNXCommands::Echo { echo_on }, _)) => assert_eq!(echo_on, true),
        _ => panic!("Wrong command type"),
    }

    let command = DiscoveryNXCommands::Shutter {
        laser: DiscoveryLaser::VariableWavelength,
        state: ShutterState::Open,
    };

    buf.clear();
    encode_command(&mut buf, &command);

    match decode_command(buf.as_slice(), 0) {
        Some((DiscoveryNXCommands::Shutter { laser, state }, _)) => {
            assert_eq!(laser, DiscoveryLaser::VariableWavelength);
            assert_eq!(state, ShutterState::Open);
        },
        _ => panic!("Wrong command type"),
    }
}

#[test]
fn discoverynx_test_serde_command() {
    let command = DiscoveryNXCommands::Echo { echo_on: true };

    let mut buf = Vec::new();
    encode_command(&mut buf, &command);

    println!("Serialized : {:?}", buf);

    match decode_command(buf.as_slice(), 0) {
        Some((DiscoveryNXCommands::Echo { echo_on }, _)) => assert_eq!(echo_on, true),
        _ => panic!("Wrong command type"),
    }

    let command = DiscoveryNXCommands::Shutter {
        laser: DiscoveryLaser::VariableWavelength,
        state: ShutterState::Open,
    };

    buf.clear();
    encode_command(&mut buf, &command);

    match decode_command(buf.as_slice(), 0) {
        Some((DiscoveryNXCommands::Shutter { laser, state }, _)) => {
            assert_eq!(laser, DiscoveryLaser::VariableWavelength);
            assert_eq!(state, ShutterState::Open);
        },
        _ => panic!("Wrong command type"),
    }
}

#[test]
fn test_serde_query() {
    let test_status = sample_status();

    let record = frame_status(&test_status);
    println!("Serialized : {:?}", record);

    match decode_status_record(record.as_slice()) {
        Some(status) => {
            assert_eq!(status.echo, true);
            assert_eq!(status.laser, LaserState::On);
            assert_eq!(status.variable_shutter, ShutterState::Open);
            assert_eq!(status.fixed_shutter, ShutterState::Closed);
            assert_eq!(status.keyswitch, true);
            assert_eq!(status.faults, 0);
            assert_eq!(status.fault_text, "No faults".to_string());
            assert_eq!(status.tuning, TuningStatus::Ready);
            assert_eq!(status.alignment_var, true);
            assert_eq!(status.alignment_fixed, false);
            assert_eq!(status.status, "Ready".to_string());
            assert_eq!(status.wavelength, Milli { milli: 840_000 });
            assert_eq!(status.power_var, Milli { milli: 100_000 });
            assert_eq!(status.power_fixed, Milli { milli: 100_000 });
            assert_eq!(status.gdd_curve, 0);
            assert_eq!(status.gdd_curve_n, "Test".to_string());
            assert_eq!(status.gdd, Milli { milli: 0 });
        },
        _ => panic!("Wrong status type"),
    }
}

#[test]
fn test_deserialize_laser_type() {
    let tp = LaserType::DebugLaser;

    let buf = frame_laser_id(tp);

    let laser_type = decode_laser_id(buf.as_slice()).unwrap();

    assert_eq!(laser_type, LaserType::DebugLaser);
}

#[test]
fn test_deserialize_laser_status() {
    let mut laser = DebugLaser::default();
    let status_serialized = laser.serialized_status().unwrap();

    let sent_message = frame_status_payload(&status_serialized);

    let status = decode_status_record(sent_message.as_slice()).unwrap();
    println!("Deserialized : {:?}", status);
    assert_eq!(status, laser.status().unwrap());
}

#[test]
fn status_round_trip_preserves_every_field() {
    let status = sample_status();
    let record = frame_status(&status);
    let back = decode_status_record(record.as_slice()).unwrap();
    assert_eq!(back, status);
}

#[test]
fn status_round_trip_with_multibyte_text() {
    let mut status = sample_status();
    status.fault_text = "überhitzt — prüfen".to_string();
    status.gdd_curve_n = "courbe n°1".to_string();
    let record = frame_status(&status);
    let back = decode_status_record(record.as_slice()).unwrap();
    assert_eq!(back, status);
}

#[test]
fn command_round_trip_every_variant() {
    let commands = vec![
        DiscoveryNXCommands::Echo { echo_on: false },
        DiscoveryNXCommands::Laser { state: LaserState::Standby },
        DiscoveryNXCommands::Shutter {
            laser: DiscoveryLaser::FixedWavelength,
            state: ShutterState::Closed,
        },
        DiscoveryNXCommands::FaultClear,
        DiscoveryNXCommands::AlignmentMode {
            laser: DiscoveryLaser::VariableWavelength,
            alignment_mode_on: true,
        },
        DiscoveryNXCommands::Wavelength { wavelength_nm: Milli { milli: 812_500 } },
        DiscoveryNXCommands::Heartbeat,
        DiscoveryNXCommands::GddCurve { curve_num: 7 },
        DiscoveryNXCommands::GddCurveN { curve_name: "alpha".to_string() },
        DiscoveryNXCommands::Gdd { gdd_val: Milli { milli: -1_234_000 } },
        DiscoveryNXCommands::SetCurveN { new_curve_name: "beta".to_string() },
    ];
    for command in commands {
        let mut buf = Vec::new();
        encode_command(&mut buf, &command);
        let (back, used) = decode_command(buf.as_slice(), 0).unwrap();
        assert_eq!(back, command);
        assert_eq!(used, buf.len());
    }
}

#[test]
fn command_record_decodes_first_after_garbage() {
    let command = DiscoveryNXCommands::GddCurve { curve_num: 3 };
    let mut buf: Vec<u8> = vec![0, 1, 2, 255];
    buf.extend_from_slice(frame_command(&command).as_slice());
    let back = decode_command_record(buf.as_slice()).unwrap();
    assert_eq!(back, command);
}

#[test]
fn status_buffer_decodes_to_latest_record() {
    let mut first = sample_status();
    first.wavelength = Milli { milli: 700_000 };
    let mut second = sample_status();
    second.wavelength = Milli { milli: 990_000 };

    let mut stream = frame_status(&first);
    stream.extend_from_slice(frame_status(&second).as_slice());

    let got = decode_status_record(stream.as_slice()).unwrap();
    assert_eq!(got, second);
}

#[test]
fn partial_status_record_does_not_decode() {
    let status = sample_status();
    let record = frame_status(&status);
    // Marker plus a truncated payload: no decode yet.
    let partial = &record[..status_marker().len() + 3];
    assert!(decode_status_record(partial).is_none());
    // No marker at all: nothing to decode.
    assert!(decode_status_record(&[1, 2, 3]).is_none());
}
