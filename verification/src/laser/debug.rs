//! An in-memory stand-in for a Discovery NX.
//!
//! It accepts the same commands, keeps its state in plain fields, enforces
//! the instrument's wavelength and GDD bounds locally, and produces the
//! same aggregate status record — with no serial line anywhere near it.
//! Tests and hardware-free hosts run against it.

use vstd::prelude::*;
use crate::CoherentError;
use crate::laser::{LaserState, LaserType, Query, ShutterState, TuningStatus};
use crate::laser::discoverynx::{CommandView, DiscoveryLaser, DiscoveryNXCommands,
    DiscoveryNXStatus, StatusView};
use crate::encoding::{enc_status, encode_status};
use crate::ports::{PortInfo, eq_str};
use crate::units::Milli;

verus! {

/// The in-memory laser. Its fields mirror what the hardware would report.
#[derive(Debug)]
pub struct DebugLaser {
    pub serial_number: String,
    pub echo: bool,
    pub prompt: bool,
    pub variable_shutter: bool,
    pub fixed_shutter: bool,
    pub variable_alignment: bool,
    pub fixed_alignment: bool,
    pub variable_power: Milli,
    pub fixed_power: Milli,
    pub variable_wavelength: Milli,
    pub tuning_status: bool,
    pub gdd: Milli,
    pub gdd_curve_n: String,
    pub gdd_curve: i32,
    pub status: String,
    pub fault_text: String,
}

/// The mathematical shape of the in-memory laser.
pub struct DebugLaserView {
    pub serial_number: Seq<char>,
    pub echo: bool,
    pub prompt: bool,
    pub variable_shutter: bool,
    pub fixed_shutter: bool,
    pub variable_alignment: bool,
    pub fixed_alignment: bool,
    pub variable_power: i64,
    pub fixed_power: i64,
    pub variable_wavelength: i64,
    pub tuning_status: bool,
    pub gdd: i64,
    pub gdd_curve_n: Seq<char>,
    pub gdd_curve: i32,
    pub status: Seq<char>,
    pub fault_text: Seq<char>,
}

impl View for DebugLaser {
    type V = DebugLaserView;

    open spec fn view(&self) -> DebugLaserView {
        DebugLaserView {
            serial_number: self.serial_number@,
            echo: self.echo,
            prompt: self.prompt,
            variable_shutter: self.variable_shutter,
            fixed_shutter: self.fixed_shutter,
            variable_alignment: self.variable_alignment,
            fixed_alignment: self.fixed_alignment,
            variable_power: self.variable_power.milli,
            fixed_power: self.fixed_power.milli,
            variable_wavelength: self.variable_wavelength.milli,
            tuning_status: self.tuning_status,
            gdd: self.gdd.milli,
            gdd_curve_n: self.gdd_curve_n@,
            gdd_curve: self.gdd_curve,
            status: self.status@,
            fault_text: self.fault_text@,
        }
    }
}

/// The state a fresh in-memory laser starts in: echo on, no prompt, both
/// shutters closed, alignment off, 1 W variable and 5 W fixed beam power,
/// 920 nm, not tuning, zero GDD on the curve named `Default`, status `OK`
/// and no faults.
pub open spec fn spec_debug_default() -> DebugLaserView {
    DebugLaserView {
        serial_number: "DEBUG"@,
        echo: true,
        prompt: false,
        variable_shutter: false,
        fixed_shutter: false,
        variable_alignment: false,
        fixed_alignment: false,
        variable_power: 1_000_000,
        fixed_power: 5_000_000,
        variable_wavelength: 920_000,
        tuning_status: false,
        gdd: 0,
        gdd_curve_n: "Default"@,
        gdd_curve: 0,
        status: "OK"@,
        fault_text: "No faults"@,
    }
}

/// What one command does to the in-memory laser: each variant updates its
/// field; a wavelength outside [700, 1000] nm or a GDD value outside
/// [-10000, 10000] is refused with `CommandNotExecutedError`; a heartbeat
/// and a curve rename change nothing.
pub open spec fn spec_apply_command(s: DebugLaserView, c: CommandView) -> Result<
    DebugLaserView,
    CoherentError,
> {
    match c {
        CommandView::Echo { echo_on } => Ok(DebugLaserView { echo: echo_on, ..s }),
        CommandView::Laser { state } => Ok(
            DebugLaserView {
                status: match state {
                    LaserState::Standby => "Standby"@,
                    LaserState::On => "On"@,
                },
                ..s
            },
        ),
        CommandView::Shutter { laser, state } => Ok(
            match laser {
                DiscoveryLaser::VariableWavelength => DebugLaserView {
                    variable_shutter: state is Open,
                    ..s
                },
                DiscoveryLaser::FixedWavelength => DebugLaserView {
                    fixed_shutter: state is Open,
                    ..s
                },
            },
        ),
        CommandView::FaultClear => Ok(DebugLaserView { fault_text: "No faults"@, ..s }),
        CommandView::AlignmentMode { laser, alignment_mode_on } => Ok(
            match laser {
                DiscoveryLaser::VariableWavelength => DebugLaserView {
                    variable_alignment: alignment_mode_on,
                    ..s
                },
                DiscoveryLaser::FixedWavelength => DebugLaserView {
                    fixed_alignment: alignment_mode_on,
                    ..s
                },
            },
        ),
        CommandView::Wavelength { wavelength_milli_nm } => if 700_000 <= wavelength_milli_nm
            && wavelength_milli_nm <= 1_000_000 {
            Ok(DebugLaserView { variable_wavelength: wavelength_milli_nm, ..s })
        } else {
            Err(CoherentError::CommandNotExecutedError)
        },
        CommandView::Heartbeat => Ok(s),
        CommandView::GddCurve { curve_num } => Ok(
            DebugLaserView { gdd_curve: curve_num as i32, ..s },
        ),
        CommandView::GddCurveN { curve_name } => Ok(DebugLaserView { gdd_curve_n: curve_name, ..s }),
        CommandView::Gdd { gdd_milli } => if -10_000_000 <= gdd_milli && gdd_milli <= 10_000_000 {
            Ok(DebugLaserView { gdd: gdd_milli, ..s })
        } else {
            Err(CoherentError::CommandNotExecutedError)
        },
        CommandView::SetCurveN { new_curve_name } => Ok(s),
    }
}

/// The status record the in-memory laser reports: its fields, a laser that
/// is always on, a keyswitch that is always on, and an empty fault
/// register.
pub open spec fn spec_debug_status(s: DebugLaserView) -> StatusView {
    StatusView {
        echo: s.echo,
        laser: LaserState::On,
        variable_shutter: ShutterState::spec_from_bool(s.variable_shutter),
        fixed_shutter: ShutterState::spec_from_bool(s.fixed_shutter),
        keyswitch: true,
        faults: 0,
        fault_text: s.fault_text,
        tuning: TuningStatus::spec_from_bool(s.tuning_status),
        alignment_var: s.variable_alignment,
        alignment_fixed: s.fixed_alignment,
        status: s.status,
        wavelength_milli: s.variable_wavelength,
        power_var_milli: s.variable_power,
        power_fixed_milli: s.fixed_power,
        gdd_curve: s.gdd_curve,
        gdd_curve_n: s.gdd_curve_n,
        gdd_milli: s.gdd,
    }
}

/// What a shutter command promises every later status reader: the status
/// record the laser reports after accepting the command shows the
/// commanded position on the commanded path, and the other path keeps its
/// position. With the encoding and framing round trips, a broadcast framed
/// from that record hands every connected client exactly this status.
pub proof fn lemma_shutter_command_shows_in_status(
    s: DebugLaserView,
    laser: DiscoveryLaser,
    state: ShutterState,
)
    ensures
        spec_apply_command(s, CommandView::Shutter { laser, state }) matches Ok(v) && match laser {
            DiscoveryLaser::VariableWavelength => spec_debug_status(v).variable_shutter == state
                && spec_debug_status(v).fixed_shutter == spec_debug_status(s).fixed_shutter,
            DiscoveryLaser::FixedWavelength => spec_debug_status(v).fixed_shutter == state
                && spec_debug_status(v).variable_shutter == spec_debug_status(s).variable_shutter,
        },
{
}

impl Default for DebugLaser {
    /// A fresh in-memory laser, in the state [`spec_debug_default`] gives.
    fn default() -> (r: Self)
        ensures
            r@ == spec_debug_default(),
    {
        let r = DebugLaser {
            serial_number: String::from_str("DEBUG"),
            echo: true,
            prompt: false,
            variable_shutter: false,
            fixed_shutter: false,
            variable_alignment: false,
            fixed_alignment: false,
            variable_power: Milli { milli: 1_000_000 },
            fixed_power: Milli { milli: 5_000_000 },
            variable_wavelength: Milli { milli: 920_000 },
            tuning_status: false,
            gdd: Milli { milli: 0 },
            gdd_curve_n: String::from_str("Default"),
            gdd_curve: 0,
            status: String::from_str("OK"),
            fault_text: String::from_str("No faults"),
        };
        r
    }
}

impl DebugLaser {
    /// The in-memory laser is found on any machine: this always succeeds
    /// with a fresh default instance.
    pub fn find_first() -> (r: Result<DebugLaser, CoherentError>)
        ensures
            r matches Ok(l) && l@ == spec_debug_default(),
    {
        Ok(DebugLaser::default())
    }

    /// Any port is good enough for the in-memory laser.
    pub fn is_valid_device(_port: &PortInfo) -> (r: bool)
        ensures
            r == true,
    {
        true
    }

    /// Opening the in-memory laser from any port information succeeds with
    /// a fresh default instance.
    pub fn from_port_info(_port: &PortInfo) -> (r: Result<DebugLaser, CoherentError>)
        ensures
            r matches Ok(l) && l@ == spec_debug_default(),
    {
        Ok(DebugLaser::default())
    }

    /// The model this laser reports in the handshake.
    pub fn into_laser_type() -> (r: LaserType)
        ensures
            r == LaserType::DebugLaser,
    {
        LaserType::DebugLaser
    }

    /// A raw serial write is accepted and ignored: there is no line.
    pub fn send_serial_command(&mut self, _command: &str) -> (r: Result<(), CoherentError>)
        ensures
            r is Ok,
            final(self)@ == old(self)@,
    {
        Ok(())
    }

    /// Apply one command, exactly as [`spec_apply_command`] describes: the
    /// state changes on `Ok` and stays put on an error.
    pub fn send_command(&mut self, command: DiscoveryNXCommands) -> (r: Result<(), CoherentError>)
        ensures
            match spec_apply_command(old(self)@, command@) {
                Ok(v) => r is Ok && final(self)@ == v,
                Err(e) => r == Err::<(), _>(e) && final(self)@ == old(self)@,
            },
    {
        match command {
            DiscoveryNXCommands::Echo { echo_on } => {
                self.echo = echo_on;
            },
            DiscoveryNXCommands::Laser { state } => {
                self.status = match state {
                    LaserState::Standby => String::from_str("Standby"),
                    LaserState::On => String::from_str("On"),
                };
            },
            DiscoveryNXCommands::Shutter { laser, state } => {
                let open = match state {
                    ShutterState::Open => true,
                    ShutterState::Closed => false,
                };
                match laser {
                    DiscoveryLaser::VariableWavelength => {
                        self.variable_shutter = open;
                    },
                    DiscoveryLaser::FixedWavelength => {
                        self.fixed_shutter = open;
                    },
                }
            },
            DiscoveryNXCommands::FaultClear => {
                self.fault_text = String::from_str("No faults");
            },
            DiscoveryNXCommands::AlignmentMode { laser, alignment_mode_on } => {
                match laser {
                    DiscoveryLaser::VariableWavelength => {
                        self.variable_alignment = alignment_mode_on;
                    },
                    DiscoveryLaser::FixedWavelength => {
                        self.fixed_alignment = alignment_mode_on;
                    },
                }
            },
            DiscoveryNXCommands::Wavelength { wavelength_nm } => {
                if wavelength_nm.milli < 700_000 || wavelength_nm.milli > 1_000_000 {
                    return Err(CoherentError::CommandNotExecutedError);
                }
                self.variable_wavelength = wavelength_nm;
            },
            DiscoveryNXCommands::Heartbeat => {},
            DiscoveryNXCommands::GddCurve { curve_num } => {
                self.gdd_curve = curve_num as i32;
            },
            DiscoveryNXCommands::GddCurveN { curve_name } => {
                self.gdd_curve_n = curve_name;
            },
            DiscoveryNXCommands::Gdd { gdd_val } => {
                if gdd_val.milli < -10_000_000 || gdd_val.milli > 10_000_000 {
                    return Err(CoherentError::CommandNotExecutedError);
                }
                self.gdd = gdd_val;
            },
            DiscoveryNXCommands::SetCurveN { new_curve_name: _ } => {},
        }
        Ok(())
    }

    /// The serial path that answers queries does not exist here: a typed
    /// query always fails. The convenience accessors read the state instead.
    pub fn query<Q: Query>(&mut self, _query: Q) -> (r: Result<Q::Result, CoherentError>)
        ensures
            r == Err::<Q::Result, _>(CoherentError::CommandNotExecutedError),
            final(self)@ == old(self)@,
    {
        Err(CoherentError::CommandNotExecutedError)
    }

    /// The aggregate status record, exactly as [`spec_debug_status`]
    /// describes.
    pub fn status(&mut self) -> (r: Result<DiscoveryNXStatus, CoherentError>)
        ensures
            r matches Ok(st) && st@ == spec_debug_status(old(self)@),
            final(self)@ == old(self)@,
    {
        Ok(
            DiscoveryNXStatus {
                echo: self.echo,
                laser: LaserState::On,
                variable_shutter: ShutterState::from_bool(self.variable_shutter),
                fixed_shutter: ShutterState::from_bool(self.fixed_shutter),
                keyswitch: true,
                faults: 0,
                fault_text: self.fault_text.clone(),
                tuning: TuningStatus::from_bool(self.tuning_status),
                alignment_var: self.variable_alignment,
                alignment_fixed: self.fixed_alignment,
                status: self.status.clone(),
                wavelength: self.variable_wavelength,
                power_var: self.variable_power,
                power_fixed: self.fixed_power,
                gdd_curve: self.gdd_curve,
                gdd_curve_n: self.gdd_curve_n.clone(),
                gdd: self.gdd,
            },
        )
    }

    /// The status record, already encoded for the status broadcast.
    pub fn serialized_status(&mut self) -> (r: Result<Vec<u8>, CoherentError>)
        ensures
            r matches Ok(v) && v@ == enc_status(spec_debug_status(old(self)@)),
            final(self)@ == old(self)@,
    {
        let st = match self.status() {
            Ok(st) => st,
            Err(e) => {
                return Err(e);
            },
        };
        let mut buf: Vec<u8> = Vec::new();
        encode_status(&mut buf, &st);
        Ok(buf)
    }

    /// Tune the variable beam.
    pub fn set_wavelength(&mut self, wavelength: Milli) -> (r: Result<(), CoherentError>)
        ensures
            match spec_apply_command(
                old(self)@,
                CommandView::Wavelength { wavelength_milli_nm: wavelength.milli },
            ) {
                Ok(v) => r is Ok && final(self)@ == v,
                Err(e) => r == Err::<(), _>(e) && final(self)@ == old(self)@,
            },
    {
        self.send_command(DiscoveryNXCommands::Wavelength { wavelength_nm: wavelength })
    }

    /// The variable beam's wavelength.
    pub fn get_wavelength(&mut self) -> (r: Result<Milli, CoherentError>)
        ensures
            r matches Ok(w) && w.milli == old(self)@.variable_wavelength,
            final(self)@ == old(self)@,
    {
        Ok(self.variable_wavelength)
    }

    /// Set the GDD compensation value.
    pub fn set_gdd(&mut self, gdd: Milli) -> (r: Result<(), CoherentError>)
        ensures
            match spec_apply_command(old(self)@, CommandView::Gdd { gdd_milli: gdd.milli }) {
                Ok(v) => r is Ok && final(self)@ == v,
                Err(e) => r == Err::<(), _>(e) && final(self)@ == old(self)@,
            },
    {
        self.send_command(DiscoveryNXCommands::Gdd { gdd_val: gdd })
    }

    /// The GDD compensation value.
    pub fn get_gdd(&mut self) -> (r: Result<Milli, CoherentError>)
        ensures
            r matches Ok(g) && g.milli == old(self)@.gdd,
            final(self)@ == old(self)@,
    {
        Ok(self.gdd)
    }

    /// Open or close one path's shutter.
    pub fn set_shutter(&mut self, laser: DiscoveryLaser, state: ShutterState) -> (r: Result<
        (),
        CoherentError,
    >)
        ensures
            r is Ok,
            final(self)@ == (match laser {
                DiscoveryLaser::VariableWavelength => DebugLaserView {
                    variable_shutter: state is Open,
                    ..old(self)@
                },
                DiscoveryLaser::FixedWavelength => DebugLaserView {
                    fixed_shutter: state is Open,
                    ..old(self)@
                },
            }),
    {
        self.send_command(DiscoveryNXCommands::Shutter { laser, state })
    }

    /// One path's shutter position.
    pub fn get_shutter(&mut self, laser: DiscoveryLaser) -> (r: Result<ShutterState, CoherentError>)
        ensures
            r matches Ok(s) && s == ShutterState::spec_from_bool(
                match laser {
                    DiscoveryLaser::VariableWavelength => old(self)@.variable_shutter,
                    DiscoveryLaser::FixedWavelength => old(self)@.fixed_shutter,
                },
            ),
            final(self)@ == old(self)@,
    {
        match laser {
            DiscoveryLaser::VariableWavelength => {
                if self.variable_shutter {
                    Ok(ShutterState::Open)
                } else {
                    Ok(ShutterState::Closed)
                }
            },
            DiscoveryLaser::FixedWavelength => {
                if self.fixed_shutter {
                    Ok(ShutterState::Open)
                } else {
                    Ok(ShutterState::Closed)
                }
            },
        }
    }

    /// Select a GDD calibration curve by index.
    pub fn set_gdd_curve(&mut self, curve: u8) -> (r: Result<(), CoherentError>)
        ensures
            r is Ok,
            final(self)@ == (DebugLaserView { gdd_curve: curve as i32, ..old(self)@ }),
    {
        self.send_command(DiscoveryNXCommands::GddCurve { curve_num: curve })
    }

    /// The selected GDD calibration curve's index.
    pub fn get_gdd_curve(&mut self) -> (r: Result<i32, CoherentError>)
        ensures
            r == Ok::<_, CoherentError>(old(self)@.gdd_curve),
            final(self)@ == old(self)@,
    {
        Ok(self.gdd_curve)
    }

    /// Select a GDD calibration curve by name.
    pub fn set_gdd_curve_n(&mut self, name: &str) -> (r: Result<(), CoherentError>)
        ensures
            r is Ok,
            final(self)@ == (DebugLaserView { gdd_curve_n: name@, ..old(self)@ }),
    {
        self.send_command(DiscoveryNXCommands::GddCurveN { curve_name: name.to_owned() })
    }

    /// The selected GDD calibration curve's name.
    pub fn get_gdd_curve_n(&mut self) -> (r: Result<String, CoherentError>)
        ensures
            r matches Ok(s) && s@ == old(self)@.gdd_curve_n,
            final(self)@ == old(self)@,
    {
        Ok(self.gdd_curve_n.clone())
    }

    /// Toggle one path's alignment mode.
    pub fn set_alignment_mode(&mut self, laser: DiscoveryLaser, mode: bool) -> (r: Result<
        (),
        CoherentError,
    >)
        ensures
            r is Ok,
            final(self)@ == (match laser {
                DiscoveryLaser::VariableWavelength => DebugLaserView {
                    variable_alignment: mode,
                    ..old(self)@
                },
                DiscoveryLaser::FixedWavelength => DebugLaserView {
                    fixed_alignment: mode,
                    ..old(self)@
                },
            }),
    {
        self.send_command(DiscoveryNXCommands::AlignmentMode { laser, alignment_mode_on: mode })
    }

    /// One path's alignment-mode flag.
    pub fn get_alignment_mode(&mut self, laser: DiscoveryLaser) -> (r: Result<bool, CoherentError>)
        ensures
            r == Ok::<_, CoherentError>(
                match laser {
                    DiscoveryLaser::VariableWavelength => old(self)@.variable_alignment,
                    DiscoveryLaser::FixedWavelength => old(self)@.fixed_alignment,
                },
            ),
            final(self)@ == old(self)@,
    {
        match laser {
            DiscoveryLaser::VariableWavelength => Ok(self.variable_alignment),
            DiscoveryLaser::FixedWavelength => Ok(self.fixed_alignment),
        }
    }

    /// One beam's output power.
    pub fn get_power(&mut self, laser: DiscoveryLaser) -> (r: Result<Milli, CoherentError>)
        ensures
            r matches Ok(p) && p.milli == (match laser {
                DiscoveryLaser::VariableWavelength => old(self)@.variable_power,
                DiscoveryLaser::FixedWavelength => old(self)@.fixed_power,
            }),
            final(self)@ == old(self)@,
    {
        match laser {
            DiscoveryLaser::VariableWavelength => Ok(self.variable_power),
            DiscoveryLaser::FixedWavelength => Ok(self.fixed_power),
        }
    }

    /// The laser's serial number.
    pub fn get_serial(&mut self) -> (r: Result<String, CoherentError>)
        ensures
            r matches Ok(s) && s@ == old(self)@.serial_number,
            final(self)@ == old(self)@,
    {
        Ok(self.serial_number.clone())
    }

    /// Put the laser in standby or back on.
    pub fn set_to_standby(&mut self, standby: bool) -> (r: Result<(), CoherentError>)
        ensures
            r is Ok,
            final(self)@ == (DebugLaserView {
                status: if standby {
                    "Standby"@
                } else {
                    "On"@
                },
                ..old(self)@
            }),
    {
        self.send_command(
            DiscoveryNXCommands::Laser {
                state: if standby {
                    LaserState::Standby
                } else {
                    LaserState::On
                },
            },
        )
    }

    /// Whether the laser reports standby: it does exactly when its status
    /// text is `Standby`.
    pub fn get_standby(&mut self) -> (r: Result<LaserState, CoherentError>)
        ensures
            r == Ok::<_, CoherentError>(
                if old(self)@.status == "Standby"@ {
                    LaserState::Standby
                } else {
                    LaserState::On
                },
            ),
            final(self)@ == old(self)@,
    {
        if eq_str(self.status.as_str(), "Standby") {
            Ok(LaserState::Standby)
        } else {
            Ok(LaserState::On)
        }
    }

    /// The key switch of the in-memory laser is always on.
    pub fn get_keyswitch_on(&mut self) -> (r: Result<bool, CoherentError>)
        ensures
            r == Ok::<_, CoherentError>(true),
            final(self)@ == old(self)@,
    {
        Ok(true)
    }

    /// The laser's free-form status text.
    pub fn get_status(&mut self) -> (r: Result<String, CoherentError>)
        ensures
            r matches Ok(s) && s@ == old(self)@.status,
            final(self)@ == old(self)@,
    {
        Ok(self.status.clone())
    }

    /// Clear the fault register.
    pub fn clear_faults(&mut self) -> (r: Result<(), CoherentError>)
        ensures
            r is Ok,
            final(self)@ == (DebugLaserView { fault_text: "No faults"@, ..old(self)@ }),
    {
        self.send_command(DiscoveryNXCommands::FaultClear)
    }

    /// The fault register of the in-memory laser is always clear.
    pub fn get_faults(&mut self) -> (r: Result<u8, CoherentError>)
        ensures
            r == Ok::<_, CoherentError>(0u8),
            final(self)@ == old(self)@,
    {
        Ok(0)
    }

    /// The textual description of the fault register.
    pub fn get_fault_text(&mut self) -> (r: Result<String, CoherentError>)
        ensures
            r matches Ok(s) && s@ == old(self)@.fault_text,
            final(self)@ == old(self)@,
    {
        Ok(self.fault_text.clone())
    }

    /// Whether the variable beam is tuning.
    pub fn get_tuning(&mut self) -> (r: Result<TuningStatus, CoherentError>)
        ensures
            r == Ok::<_, CoherentError>(TuningStatus::spec_from_bool(old(self)@.tuning_status)),
            final(self)@ == old(self)@,
    {
        if self.tuning_status {
            Ok(TuningStatus::Tuning)
        } else {
            Ok(TuningStatus::Ready)
        }
    }
}

} // verus!
