//! The Discovery NX dialect: its two optical paths, its command set, the
//! aggregate status record, and the exact wire tokens they put on the
//! serial line.

use vstd::prelude::*;
use crate::laser::{LaserCommand, LaserState, ShutterState, TuningStatus};
use crate::units::{Milli, spec_format_milli, spec_nat_digits, format_milli, nat_digits_string};

pub mod queries;

pub use queries as DiscoveryNXQueries;

verus! {

/// Which of the two optical paths a command or query addresses.
#[derive(Debug, PartialEq, Eq, Structural, Clone, Copy)]
pub enum DiscoveryLaser {
    VariableWavelength,
    FixedWavelength,
}

impl View for DiscoveryLaser {
    type V = DiscoveryLaser;

    open spec fn view(&self) -> DiscoveryLaser {
        *self
    }
}

/// Commands that change a Discovery NX setting.
#[derive(Debug, PartialEq, Clone)]
pub enum DiscoveryNXCommands {
    /// Whether the instrument echoes issued command strings.
    Echo { echo_on: bool },
    /// Standby or on.
    Laser { state: LaserState },
    /// Open or close one path's shutter.
    Shutter { laser: DiscoveryLaser, state: ShutterState },
    /// Clear the fault register.
    FaultClear,
    /// Toggle one path's alignment mode.
    AlignmentMode { laser: DiscoveryLaser, alignment_mode_on: bool },
    /// Tune the variable beam, in nanometers.
    Wavelength { wavelength_nm: Milli },
    Heartbeat,
    /// Select a GDD calibration curve by index.
    GddCurve { curve_num: u8 },
    /// Select a GDD calibration curve by name.
    GddCurveN { curve_name: String },
    /// Set the GDD compensation value.
    Gdd { gdd_val: Milli },
    /// Rename the current calibration curve.
    SetCurveN { new_curve_name: String },
}

/// The mathematical shape of a command: strings as character sequences,
/// decimals as thousandths.
pub enum CommandView {
    Echo { echo_on: bool },
    Laser { state: LaserState },
    Shutter { laser: DiscoveryLaser, state: ShutterState },
    FaultClear,
    AlignmentMode { laser: DiscoveryLaser, alignment_mode_on: bool },
    Wavelength { wavelength_milli_nm: i64 },
    Heartbeat,
    GddCurve { curve_num: u8 },
    GddCurveN { curve_name: Seq<char> },
    Gdd { gdd_milli: i64 },
    SetCurveN { new_curve_name: Seq<char> },
}

impl View for DiscoveryNXCommands {
    type V = CommandView;

    open spec fn view(&self) -> CommandView {
        match self {
            DiscoveryNXCommands::Echo { echo_on } => CommandView::Echo { echo_on: *echo_on },
            DiscoveryNXCommands::Laser { state } => CommandView::Laser { state: *state },
            DiscoveryNXCommands::Shutter { laser, state } => CommandView::Shutter {
                laser: *laser,
                state: *state,
            },
            DiscoveryNXCommands::FaultClear => CommandView::FaultClear,
            DiscoveryNXCommands::AlignmentMode { laser, alignment_mode_on } =>
                CommandView::AlignmentMode {
                laser: *laser,
                alignment_mode_on: *alignment_mode_on,
            },
            DiscoveryNXCommands::Wavelength { wavelength_nm } => CommandView::Wavelength {
                wavelength_milli_nm: wavelength_nm.milli,
            },
            DiscoveryNXCommands::Heartbeat => CommandView::Heartbeat,
            DiscoveryNXCommands::GddCurve { curve_num } => CommandView::GddCurve {
                curve_num: *curve_num,
            },
            DiscoveryNXCommands::GddCurveN { curve_name } => CommandView::GddCurveN {
                curve_name: curve_name@,
            },
            DiscoveryNXCommands::Gdd { gdd_val } => CommandView::Gdd { gdd_milli: gdd_val.milli },
            DiscoveryNXCommands::SetCurveN { new_curve_name } => CommandView::SetCurveN {
                new_curve_name: new_curve_name@,
            },
        }
    }
}

/// The exact serial token of each command, per the instrument dialect.
pub open spec fn spec_command_token(c: CommandView) -> Seq<char> {
    match c {
        CommandView::Echo { echo_on } => if echo_on {
            "E=1"@
        } else {
            "E=0"@
        },
        CommandView::Laser { state } => if state is On {
            "L=1"@
        } else {
            "L=0"@
        },
        CommandView::Shutter { laser, state } => (match laser {
            DiscoveryLaser::VariableWavelength => "S="@,
            DiscoveryLaser::FixedWavelength => "SFIXED="@,
        }) + (if state is Open {
            "1"@
        } else {
            "0"@
        }),
        CommandView::FaultClear => "FC"@,
        CommandView::AlignmentMode { laser, alignment_mode_on } => (match laser {
            DiscoveryLaser::VariableWavelength => "ALIGN="@,
            DiscoveryLaser::FixedWavelength => "ALIGNFIXED="@,
        }) + (if alignment_mode_on {
            "1"@
        } else {
            "0"@
        }),
        CommandView::Wavelength { wavelength_milli_nm } => "WV="@ + spec_format_milli(
            wavelength_milli_nm as int,
        ),
        CommandView::Heartbeat => "HB"@,
        CommandView::GddCurve { curve_num } => "GDD="@ + spec_nat_digits(curve_num as nat),
        CommandView::GddCurveN { curve_name } => "GDDCURVEN="@ + curve_name,
        CommandView::Gdd { gdd_milli } => "GDD="@ + spec_format_milli(gdd_milli as int),
        CommandView::SetCurveN { new_curve_name } => "SETCURVEN="@ + new_curve_name,
    }
}

impl LaserCommand for DiscoveryNXCommands {
    open spec fn token(&self) -> Seq<char> {
        spec_command_token(self@)
    }

    fn to_string(&self) -> (r: String) {
        match self {
            DiscoveryNXCommands::Echo { echo_on } => {
                if *echo_on {
                    String::from_str("E=1")
                } else {
                    String::from_str("E=0")
                }
            },
            DiscoveryNXCommands::Laser { state } => {
                match state {
                    LaserState::On => String::from_str("L=1"),
                    LaserState::Standby => String::from_str("L=0"),
                }
            },
            DiscoveryNXCommands::Shutter { laser, state } => {
                let mut s = match laser {
                    DiscoveryLaser::VariableWavelength => String::from_str("S="),
                    DiscoveryLaser::FixedWavelength => String::from_str("SFIXED="),
                };
                match state {
                    ShutterState::Open => s.append("1"),
                    ShutterState::Closed => s.append("0"),
                }
                s
            },
            DiscoveryNXCommands::FaultClear => String::from_str("FC"),
            DiscoveryNXCommands::AlignmentMode { laser, alignment_mode_on } => {
                let mut s = match laser {
                    DiscoveryLaser::VariableWavelength => String::from_str("ALIGN="),
                    DiscoveryLaser::FixedWavelength => String::from_str("ALIGNFIXED="),
                };
                if *alignment_mode_on {
                    s.append("1");
                } else {
                    s.append("0");
                }
                s
            },
            DiscoveryNXCommands::Wavelength { wavelength_nm } => {
                let mut s = String::from_str("WV=");
                let num = format_milli(*wavelength_nm);
                s.append(num.as_str());
                s
            },
            DiscoveryNXCommands::Heartbeat => String::from_str("HB"),
            DiscoveryNXCommands::GddCurve { curve_num } => {
                let mut s = String::from_str("GDD=");
                let num = nat_digits_string(*curve_num as u64);
                s.append(num.as_str());
                s
            },
            DiscoveryNXCommands::GddCurveN { curve_name } => {
                let mut s = String::from_str("GDDCURVEN=");
                s.append(curve_name.as_str());
                s
            },
            DiscoveryNXCommands::Gdd { gdd_val } => {
                let mut s = String::from_str("GDD=");
                let num = format_milli(*gdd_val);
                s.append(num.as_str());
                s
            },
            DiscoveryNXCommands::SetCurveN { new_curve_name } => {
                let mut s = String::from_str("SETCURVEN=");
                s.append(new_curve_name.as_str());
                s
            },
        }
    }
}

/// The aggregate produced by one full read-only query sweep.
#[derive(Debug, PartialEq, Clone)]
pub struct DiscoveryNXStatus {
    pub echo: bool,
    pub laser: LaserState,
    pub variable_shutter: ShutterState,
    pub fixed_shutter: ShutterState,
    pub keyswitch: bool,
    pub faults: u8,
    pub fault_text: String,
    pub tuning: TuningStatus,
    pub alignment_var: bool,
    pub alignment_fixed: bool,
    pub status: String,
    pub wavelength: Milli,
    pub power_var: Milli,
    pub power_fixed: Milli,
    pub gdd_curve: i32,
    pub gdd_curve_n: String,
    pub gdd: Milli,
}

/// The mathematical shape of a status record.
pub struct StatusView {
    pub echo: bool,
    pub laser: LaserState,
    pub variable_shutter: ShutterState,
    pub fixed_shutter: ShutterState,
    pub keyswitch: bool,
    pub faults: u8,
    pub fault_text: Seq<char>,
    pub tuning: TuningStatus,
    pub alignment_var: bool,
    pub alignment_fixed: bool,
    pub status: Seq<char>,
    pub wavelength_milli: i64,
    pub power_var_milli: i64,
    pub power_fixed_milli: i64,
    pub gdd_curve: i32,
    pub gdd_curve_n: Seq<char>,
    pub gdd_milli: i64,
}

impl View for DiscoveryNXStatus {
    type V = StatusView;

    open spec fn view(&self) -> StatusView {
        StatusView {
            echo: self.echo,
            laser: self.laser,
            variable_shutter: self.variable_shutter,
            fixed_shutter: self.fixed_shutter,
            keyswitch: self.keyswitch,
            faults: self.faults,
            fault_text: self.fault_text@,
            tuning: self.tuning,
            alignment_var: self.alignment_var,
            alignment_fixed: self.alignment_fixed,
            status: self.status@,
            wavelength_milli: self.wavelength.milli,
            power_var_milli: self.power_var.milli,
            power_fixed_milli: self.power_fixed.milli,
            gdd_curve: self.gdd_curve,
            gdd_curve_n: self.gdd_curve_n@,
            gdd_milli: self.gdd.milli,
        }
    }
}

} // verus!
