//! The read-only queries of the Discovery NX, each with its wire token and
//! its typed parser for the residual response text.

#![allow(non_snake_case)]

use vstd::prelude::*;
use crate::CoherentError;
use crate::laser::{LaserCommand, Query, LaserState, ShutterState, TuningStatus};
use crate::laser::discoverynx::DiscoveryLaser;
use crate::units::{Milli, spec_parse_milli, spec_parse_u8, spec_parse_i32, parse_milli, parse_u8,
    parse_i32};
use crate::wire::{spec_contains_char, contains_char};

verus! {

/// Whether the residual is exactly the single character `0` or `1`.
pub open spec fn spec_is_bit(s: Seq<char>, bit: char) -> bool {
    s.len() == 1 && s[0] == bit
}

/// Whether the residual is exactly `"0"` or `"1"`, as a pair of flags.
fn read_bit(s: &str) -> (r: (bool, bool))
    ensures
        r.0 == spec_is_bit(s@, '0'),
        r.1 == spec_is_bit(s@, '1'),
{
    if s.unicode_len() == 1 {
        let c = s.get_char(0);
        (c == '0', c == '1')
    } else {
        (false, false)
    }
}

/// Is command echo switched on? The response holds `1` when it is.
#[derive(Default, Debug)]
pub struct Echo {}

impl LaserCommand for Echo {
    open spec fn token(&self) -> Seq<char> {
        "?E"@
    }

    fn to_string(&self) -> (r: String) {
        String::from_str("?E")
    }
}

impl Query for Echo {
    type Result = bool;

    open spec fn parse_ok(&self, s: Seq<char>) -> Option<bool> {
        Some(spec_contains_char(s, '1'))
    }

    fn parse_result(&self, result: &str) -> (r: Result<bool, CoherentError>) {
        Ok(contains_char(result, '1'))
    }
}

/// Is the laser on or in standby?
#[derive(Default, Debug)]
pub struct Laser {}

impl LaserCommand for Laser {
    open spec fn token(&self) -> Seq<char> {
        "?L"@
    }

    fn to_string(&self) -> (r: String) {
        String::from_str("?L")
    }
}

impl Query for Laser {
    type Result = LaserState;

    open spec fn parse_ok(&self, s: Seq<char>) -> Option<LaserState> {
        if spec_is_bit(s, '0') {
            Some(LaserState::Standby)
        } else if spec_is_bit(s, '1') {
            Some(LaserState::On)
        } else {
            None
        }
    }

    fn parse_result(&self, result: &str) -> (r: Result<LaserState, CoherentError>) {
        let (zero, one) = read_bit(result);
        if zero {
            Ok(LaserState::Standby)
        } else if one {
            Ok(LaserState::On)
        } else {
            Err(CoherentError::InvalidResponseError(result.to_owned()))
        }
    }
}

/// One path's shutter position. Moving a shutter takes the instrument time;
/// expect a fresh reading only a few hundred milliseconds after a change.
#[derive(Debug)]
pub struct Shutter {
    pub laser: DiscoveryLaser,
}

impl LaserCommand for Shutter {
    open spec fn token(&self) -> Seq<char> {
        match self.laser {
            DiscoveryLaser::VariableWavelength => "?S"@,
            DiscoveryLaser::FixedWavelength => "?SFIXED"@,
        }
    }

    fn to_string(&self) -> (r: String) {
        match self.laser {
            DiscoveryLaser::VariableWavelength => String::from_str("?S"),
            DiscoveryLaser::FixedWavelength => String::from_str("?SFIXED"),
        }
    }
}

impl Query for Shutter {
    type Result = ShutterState;

    open spec fn parse_ok(&self, s: Seq<char>) -> Option<ShutterState> {
        if spec_is_bit(s, '0') {
            Some(ShutterState::Closed)
        } else if spec_is_bit(s, '1') {
            Some(ShutterState::Open)
        } else {
            None
        }
    }

    fn parse_result(&self, result: &str) -> (r: Result<ShutterState, CoherentError>) {
        let (zero, one) = read_bit(result);
        if zero {
            Ok(ShutterState::Closed)
        } else if one {
            Ok(ShutterState::Open)
        } else {
            Err(CoherentError::InvalidResponseError(result.to_owned()))
        }
    }
}

/// Is the key-switch interlock on? The response holds `1` when it is.
#[derive(Default, Debug)]
pub struct Keyswitch {}

impl LaserCommand for Keyswitch {
    open spec fn token(&self) -> Seq<char> {
        "?K"@
    }

    fn to_string(&self) -> (r: String) {
        String::from_str("?K")
    }
}

impl Query for Keyswitch {
    type Result = bool;

    open spec fn parse_ok(&self, s: Seq<char>) -> Option<bool> {
        Some(spec_contains_char(s, '1'))
    }

    fn parse_result(&self, result: &str) -> (r: Result<bool, CoherentError>) {
        Ok(contains_char(result, '1'))
    }
}

/// The fault register, a byte rendered in decimal.
#[derive(Default, Debug)]
pub struct Faults {}

impl LaserCommand for Faults {
    open spec fn token(&self) -> Seq<char> {
        "?F"@
    }

    fn to_string(&self) -> (r: String) {
        String::from_str("?F")
    }
}

impl Query for Faults {
    type Result = u8;

    open spec fn parse_ok(&self, s: Seq<char>) -> Option<u8> {
        spec_parse_u8(s)
    }

    fn parse_result(&self, result: &str) -> (r: Result<u8, CoherentError>) {
        match parse_u8(result) {
            Some(v) => Ok(v),
            None => Err(CoherentError::InvalidResponseError(result.to_owned())),
        }
    }
}

/// The textual description of the fault register.
#[derive(Default, Debug)]
pub struct FaultText {}

impl LaserCommand for FaultText {
    open spec fn token(&self) -> Seq<char> {
        "?FT"@
    }

    fn to_string(&self) -> (r: String) {
        String::from_str("?FT")
    }
}

impl Query for FaultText {
    type Result = String;

    open spec fn parse_ok(&self, s: Seq<char>) -> Option<Seq<char>> {
        Some(s)
    }

    fn parse_result(&self, result: &str) -> (r: Result<String, CoherentError>) {
        Ok(result.to_owned())
    }
}

/// Is the variable beam still tuning?
#[derive(Default, Debug)]
pub struct Tuning {}

impl LaserCommand for Tuning {
    open spec fn token(&self) -> Seq<char> {
        "?TS"@
    }

    fn to_string(&self) -> (r: String) {
        String::from_str("?TS")
    }
}

impl Query for Tuning {
    type Result = TuningStatus;

    open spec fn parse_ok(&self, s: Seq<char>) -> Option<TuningStatus> {
        if spec_is_bit(s, '0') {
            Some(TuningStatus::Ready)
        } else if spec_is_bit(s, '1') {
            Some(TuningStatus::Tuning)
        } else {
            None
        }
    }

    fn parse_result(&self, result: &str) -> (r: Result<TuningStatus, CoherentError>) {
        let (zero, one) = read_bit(result);
        if zero {
            Ok(TuningStatus::Ready)
        } else if one {
            Ok(TuningStatus::Tuning)
        } else {
            Err(CoherentError::InvalidResponseError(result.to_owned()))
        }
    }
}

/// One path's alignment-mode flag. The response holds `1` when it is on.
#[derive(Debug)]
pub struct AlignmentMode {
    pub laser: DiscoveryLaser,
}

impl LaserCommand for AlignmentMode {
    open spec fn token(&self) -> Seq<char> {
        match self.laser {
            DiscoveryLaser::VariableWavelength => "?ALIGNVAR"@,
            DiscoveryLaser::FixedWavelength => "?ALIGNFIXED"@,
        }
    }

    fn to_string(&self) -> (r: String) {
        match self.laser {
            DiscoveryLaser::VariableWavelength => String::from_str("?ALIGNVAR"),
            DiscoveryLaser::FixedWavelength => String::from_str("?ALIGNFIXED"),
        }
    }
}

impl Query for AlignmentMode {
    type Result = bool;

    open spec fn parse_ok(&self, s: Seq<char>) -> Option<bool> {
        Some(spec_contains_char(s, '1'))
    }

    fn parse_result(&self, result: &str) -> (r: Result<bool, CoherentError>) {
        Ok(contains_char(result, '1'))
    }
}

/// The instrument's free-form status text.
#[derive(Default, Debug)]
pub struct Status {}

impl LaserCommand for Status {
    open spec fn token(&self) -> Seq<char> {
        "?ST"@
    }

    fn to_string(&self) -> (r: String) {
        String::from_str("?ST")
    }
}

impl Query for Status {
    type Result = String;

    open spec fn parse_ok(&self, s: Seq<char>) -> Option<Seq<char>> {
        Some(s)
    }

    fn parse_result(&self, result: &str) -> (r: Result<String, CoherentError>) {
        Ok(result.to_owned())
    }
}

/// The variable beam's wavelength in nanometers. After a wavelength command
/// the instrument tunes for a while; poll [`Tuning`] to know when it is done.
#[derive(Default, Debug)]
pub struct Wavelength {}

impl LaserCommand for Wavelength {
    open spec fn token(&self) -> Seq<char> {
        "?WV"@
    }

    fn to_string(&self) -> (r: String) {
        String::from_str("?WV")
    }
}

impl Query for Wavelength {
    type Result = Milli;

    open spec fn parse_ok(&self, s: Seq<char>) -> Option<Milli> {
        match spec_parse_milli(s) {
            Some(v) => Some(Milli { milli: v as i64 }),
            None => None,
        }
    }

    fn parse_result(&self, result: &str) -> (r: Result<Milli, CoherentError>) {
        match parse_milli(result) {
            Some(v) => Ok(v),
            None => Err(CoherentError::InvalidResponseError(result.to_owned())),
        }
    }
}

/// One beam's output power, in milliwatts.
#[derive(Debug)]
pub struct Power {
    pub laser: DiscoveryLaser,
}

impl LaserCommand for Power {
    open spec fn token(&self) -> Seq<char> {
        match self.laser {
            DiscoveryLaser::VariableWavelength => "?PVAR"@,
            DiscoveryLaser::FixedWavelength => "?PFIXED"@,
        }
    }

    fn to_string(&self) -> (r: String) {
        match self.laser {
            DiscoveryLaser::VariableWavelength => String::from_str("?PVAR"),
            DiscoveryLaser::FixedWavelength => String::from_str("?PFIXED"),
        }
    }
}

impl Query for Power {
    type Result = Milli;

    open spec fn parse_ok(&self, s: Seq<char>) -> Option<Milli> {
        match spec_parse_milli(s) {
            Some(v) => Some(Milli { milli: v as i64 }),
            None => None,
        }
    }

    fn parse_result(&self, result: &str) -> (r: Result<Milli, CoherentError>) {
        match parse_milli(result) {
            Some(v) => Ok(v),
            None => Err(CoherentError::InvalidResponseError(result.to_owned())),
        }
    }
}

/// The selected GDD calibration curve's index.
#[derive(Default, Debug)]
pub struct GddCurve {}

impl LaserCommand for GddCurve {
    open spec fn token(&self) -> Seq<char> {
        "?GDDCURVE"@
    }

    fn to_string(&self) -> (r: String) {
        String::from_str("?GDDCURVE")
    }
}

impl Query for GddCurve {
    type Result = i32;

    open spec fn parse_ok(&self, s: Seq<char>) -> Option<i32> {
        spec_parse_i32(s)
    }

    fn parse_result(&self, result: &str) -> (r: Result<i32, CoherentError>) {
        match parse_i32(result) {
            Some(v) => Ok(v),
            None => Err(CoherentError::InvalidResponseError(result.to_owned())),
        }
    }
}

/// The selected GDD calibration curve's name.
#[derive(Default, Debug)]
pub struct GddCurveN {}

impl LaserCommand for GddCurveN {
    open spec fn token(&self) -> Seq<char> {
        "?GDDCURVEN"@
    }

    fn to_string(&self) -> (r: String) {
        String::from_str("?GDDCURVEN")
    }
}

impl Query for GddCurveN {
    type Result = String;

    open spec fn parse_ok(&self, s: Seq<char>) -> Option<Seq<char>> {
        Some(s)
    }

    fn parse_result(&self, result: &str) -> (r: Result<String, CoherentError>) {
        Ok(result.to_owned())
    }
}

/// The GDD compensation value.
#[derive(Default, Debug)]
pub struct Gdd {}

impl LaserCommand for Gdd {
    open spec fn token(&self) -> Seq<char> {
        "?GDD"@
    }

    fn to_string(&self) -> (r: String) {
        String::from_str("?GDD")
    }
}

impl Query for Gdd {
    type Result = Milli;

    open spec fn parse_ok(&self, s: Seq<char>) -> Option<Milli> {
        match spec_parse_milli(s) {
            Some(v) => Some(Milli { milli: v as i64 }),
            None => None,
        }
    }

    fn parse_result(&self, result: &str) -> (r: Result<Milli, CoherentError>) {
        match parse_milli(result) {
            Some(v) => Ok(v),
            None => Err(CoherentError::InvalidResponseError(result.to_owned())),
        }
    }
}

/// The instrument's serial number.
#[derive(Default, Debug)]
pub struct Serial {}

impl LaserCommand for Serial {
    open spec fn token(&self) -> Seq<char> {
        "?SN"@
    }

    fn to_string(&self) -> (r: String) {
        String::from_str("?SN")
    }
}

impl Query for Serial {
    type Result = String;

    open spec fn parse_ok(&self, s: Seq<char>) -> Option<Seq<char>> {
        Some(s)
    }

    fn parse_result(&self, result: &str) -> (r: Result<String, CoherentError>) {
        Ok(result.to_owned())
    }
}

} // verus!
