//! The bistate values: boolean coercions and `not` involutions.

use coherent_rs::laser::{LaserState, ShutterState, TuningStatus};

#[test]
fn test_shutter_state_from_bool() {
    assert_eq!(ShutterState::Open, ShutterState::from(true));
    assert_eq!(ShutterState::Closed, ShutterState::from(false));
}

#[test]
fn shutter_not_is_an_involution() {
    assert_eq!(ShutterState::Open.not(), ShutterState::Closed);
    assert_eq!(ShutterState::Open.not().not(), ShutterState::Open);
    assert_eq!(ShutterState::Closed.not().not(), ShutterState::Closed);
}

#[test]
fn shutter_bool_round_trip() {
    assert_eq!(ShutterState::from_bool(true).into_bool(), true);
    assert_eq!(ShutterState::from_bool(false).into_bool(), false);
}

#[test]
fn tuning_not_is_an_involution() {
    assert_eq!(TuningStatus::from(true), TuningStatus::Tuning);
    assert_eq!(TuningStatus::from(false), TuningStatus::Ready);
    assert_eq!(TuningStatus::Tuning.not(), TuningStatus::Ready);
    assert_eq!(TuningStatus::Tuning.not().not(), TuningStatus::Tuning);
    assert_eq!(TuningStatus::Ready.not().not(), TuningStatus::Ready);
}

#[test]
fn tuning_bool_round_trip() {
    assert_eq!(TuningStatus::from_bool(true).into_bool(), true);
    assert_eq!(TuningStatus::from_bool(false).into_bool(), false);
}

#[test]
fn laser_state_not_is_an_involution() {
    assert_eq!(LaserState::On.not(), LaserState::Standby);
    assert_eq!(LaserState::On.not().not(), LaserState::On);
    assert_eq!(LaserState::Standby.not().not(), LaserState::Standby);
}

#[test]
fn laser_state_bool_round_trip() {
    assert_eq!(LaserState::from_bool(true), LaserState::On);
    assert_eq!(LaserState::from_bool(false), LaserState::Standby);
    assert_eq!(LaserState::from_bool(true).into_bool(), true);
    assert_eq!(LaserState::from_bool(false).into_bool(), false);
}
