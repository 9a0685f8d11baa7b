//! The in-memory laser: command effects, bounds, and its status record.

use coherent_rs::CoherentError;
use coherent_rs::framing::{decode_status_record, frame_status_payload};
use coherent_rs::laser::{LaserState, ShutterState, TuningStatus};
use coherent_rs::laser::debug::DebugLaser;
use coherent_rs::laser::discoverynx::{queries, DiscoveryLaser, DiscoveryNXCommands};
use coherent_rs::units::Milli;

#[test]
fn debug_test_commands() {
    let mut discovery = DebugLaser::find_first().unwrap();

    discovery
        .send_command(DiscoveryNXCommands::Shutter {
            laser: DiscoveryLaser::VariableWavelength,
            state: ShutterState::Open,
        })
        .unwrap();
}

#[test]
fn debug_test_wavelength() {
    let mut discovery = DebugLaser::find_first().unwrap();

    let wv = discovery.get_wavelength().unwrap();

    println!("Wavelength: {:?}", wv);

    discovery
        .send_command(DiscoveryNXCommands::Wavelength { wavelength_nm: Milli { milli: 840_000 } })
        .unwrap();

    let new_wv = discovery.get_wavelength().unwrap();

    println!("Wavelength: {:?}", new_wv);

    discovery.send_command(DiscoveryNXCommands::Wavelength { wavelength_nm: wv }).unwrap();

    let new_wv = discovery.get_wavelength().unwrap();

    println!("Wavelength: {:?}", new_wv);
}

#[test]
fn fresh_debug_laser_reports_defaults() {
    let mut laser = DebugLaser::default();
    assert_eq!(laser.get_serial().unwrap(), "DEBUG".to_string());
    assert_eq!(laser.get_wavelength().unwrap(), Milli { milli: 920_000 });
    assert_eq!(laser.get_gdd().unwrap(), Milli { milli: 0 });
    assert_eq!(laser.get_gdd_curve().unwrap(), 0);
    assert_eq!(laser.get_gdd_curve_n().unwrap(), "Default".to_string());
    assert_eq!(
        laser.get_shutter(DiscoveryLaser::VariableWavelength).unwrap(),
        ShutterState::Closed
    );
    assert_eq!(
        laser.get_shutter(DiscoveryLaser::FixedWavelength).unwrap(),
        ShutterState::Closed
    );
    assert_eq!(laser.get_alignment_mode(DiscoveryLaser::VariableWavelength).unwrap(), false);
    assert_eq!(
        laser.get_power(DiscoveryLaser::VariableWavelength).unwrap(),
        Milli { milli: 1_000_000 }
    );
    assert_eq!(
        laser.get_power(DiscoveryLaser::FixedWavelength).unwrap(),
        Milli { milli: 5_000_000 }
    );
    assert_eq!(laser.get_standby().unwrap(), LaserState::On);
    assert_eq!(laser.get_keyswitch_on().unwrap(), true);
    assert_eq!(laser.get_faults().unwrap(), 0);
    assert_eq!(laser.get_fault_text().unwrap(), "No faults".to_string());
    assert_eq!(laser.get_status().unwrap(), "OK".to_string());
    assert_eq!(laser.get_tuning().unwrap(), TuningStatus::Ready);
}

#[test]
fn wavelength_out_of_range_is_refused() {
    let mut laser = DebugLaser::default();
    let before = laser.get_wavelength().unwrap();
    let r = laser.set_wavelength(Milli { milli: 0 });
    assert!(matches!(r, Err(CoherentError::CommandNotExecutedError)));
    let r = laser.set_wavelength(Milli { milli: 1_000_001 });
    assert!(matches!(r, Err(CoherentError::CommandNotExecutedError)));
    assert_eq!(laser.get_wavelength().unwrap(), before);

    laser.set_wavelength(Milli { milli: 700_000 }).unwrap();
    assert_eq!(laser.get_wavelength().unwrap(), Milli { milli: 700_000 });
    laser.set_wavelength(Milli { milli: 1_000_000 }).unwrap();
    assert_eq!(laser.get_wavelength().unwrap(), Milli { milli: 1_000_000 });
}

#[test]
fn gdd_out_of_range_is_refused() {
    let mut laser = DebugLaser::default();
    let r = laser.set_gdd(Milli { milli: 50_000_000 });
    assert!(matches!(r, Err(CoherentError::CommandNotExecutedError)));
    let r = laser.set_gdd(Milli { milli: -10_000_001 });
    assert!(matches!(r, Err(CoherentError::CommandNotExecutedError)));
    assert_eq!(laser.get_gdd().unwrap(), Milli { milli: 0 });

    laser.set_gdd(Milli { milli: -10_000_000 }).unwrap();
    assert_eq!(laser.get_gdd().unwrap(), Milli { milli: -10_000_000 });
}

#[test]
fn commands_update_the_status_record() {
    let mut laser = DebugLaser::default();
    laser.set_shutter(DiscoveryLaser::VariableWavelength, ShutterState::Open).unwrap();
    laser.set_alignment_mode(DiscoveryLaser::FixedWavelength, true).unwrap();
    laser.set_gdd_curve(4).unwrap();
    laser.set_gdd_curve_n("steep").unwrap();
    laser.set_to_standby(true).unwrap();

    assert_eq!(laser.get_standby().unwrap(), LaserState::Standby);

    let status = laser.status().unwrap();
    assert_eq!(status.variable_shutter, ShutterState::Open);
    assert_eq!(status.fixed_shutter, ShutterState::Closed);
    assert_eq!(status.alignment_fixed, true);
    assert_eq!(status.alignment_var, false);
    assert_eq!(status.gdd_curve, 4);
    assert_eq!(status.gdd_curve_n, "steep".to_string());
    assert_eq!(status.status, "Standby".to_string());
    assert_eq!(status.laser, LaserState::On);
    assert_eq!(status.keyswitch, true);

    laser.set_to_standby(false).unwrap();
    assert_eq!(laser.get_standby().unwrap(), LaserState::On);
}

#[test]
fn clear_faults_resets_the_fault_text() {
    let mut laser = DebugLaser::default();
    laser.clear_faults().unwrap();
    assert_eq!(laser.get_fault_text().unwrap(), "No faults".to_string());
}

#[test]
fn queries_always_fail_on_the_debug_laser() {
    let mut laser = DebugLaser::default();
    let r = laser.query(queries::Wavelength {});
    assert!(matches!(r, Err(CoherentError::CommandNotExecutedError)));
}

#[test]
fn serialized_status_matches_the_status_record() {
    let mut laser = DebugLaser::default();
    laser.set_shutter(DiscoveryLaser::FixedWavelength, ShutterState::Open).unwrap();

    let payload = laser.serialized_status().unwrap();
    let record = frame_status_payload(&payload);
    let decoded = decode_status_record(record.as_slice()).unwrap();
    assert_eq!(decoded, laser.status().unwrap());
    assert_eq!(decoded.fixed_shutter, ShutterState::Open);
}

#[test]
fn heartbeat_and_rename_change_nothing() {
    let mut laser = DebugLaser::default();
    let before = laser.status().unwrap();
    laser.send_command(DiscoveryNXCommands::Heartbeat).unwrap();
    laser
        .send_command(DiscoveryNXCommands::SetCurveN { new_curve_name: "ignored".to_string() })
        .unwrap();
    assert_eq!(laser.status().unwrap(), before);
}
