//! Core laser-facing types: the supported models, the bistate values used by
//! the instrument (shutter, power, tuning), and the traits that commands and
//! queries implement.

use vstd::prelude::*;
use crate::CoherentError;

pub mod discoverynx;
pub mod debug;

pub use discoverynx::{DiscoveryNXCommands, DiscoveryNXQueries, DiscoveryLaser};

verus! {

/// The laser models this library recognizes, derivable from a USB product id.
#[derive(Debug, PartialEq, Eq, Structural, Clone, Copy)]
pub enum LaserType {
    DiscoveryNX,
    DebugLaser,
    UnrecognizedDevice,
}

impl View for LaserType {
    type V = LaserType;

    open spec fn view(&self) -> LaserType {
        *self
    }
}

/// The model a USB product id stands for: 0 is the test harness,
/// 516 the Discovery NX; everything else is unrecognized.
pub open spec fn spec_laser_type_of_pid(product_id: u16) -> LaserType {
    if product_id == 0 {
        LaserType::DebugLaser
    } else if product_id == 516 {
        LaserType::DiscoveryNX
    } else {
        LaserType::UnrecognizedDevice
    }
}

impl From<u16> for LaserType {
    fn from(product_id: u16) -> (r: Self) {
        if product_id == 0 {
            LaserType::DebugLaser
        } else if product_id == 516 {
            LaserType::DiscoveryNX
        } else {
            LaserType::UnrecognizedDevice
        }
    }
}

impl vstd::std_specs::convert::FromSpecImpl<u16> for LaserType {
    open spec fn obeys_from_spec() -> bool {
        true
    }

    open spec fn from_spec(product_id: u16) -> Self {
        spec_laser_type_of_pid(product_id)
    }
}

/// Whether the laser emits or idles in standby. On the wire `1` means `On`.
#[derive(Debug, PartialEq, Eq, Structural, Clone, Copy)]
pub enum LaserState {
    Standby,
    On,
}

impl View for LaserState {
    type V = LaserState;

    open spec fn view(&self) -> LaserState {
        *self
    }
}

impl LaserState {
    /// The opposite state.
    pub fn not(self) -> (r: Self)
        ensures
            r == self.spec_not(),
    {
        match self {
            LaserState::Standby => LaserState::On,
            LaserState::On => LaserState::Standby,
        }
    }

    pub open spec fn spec_not(self) -> Self {
        match self {
            LaserState::Standby => LaserState::On,
            LaserState::On => LaserState::Standby,
        }
    }

    /// `true` is `On`, matching the wire value `1`.
    pub fn from_bool(state: bool) -> (r: Self)
        ensures
            r == Self::spec_from_bool(state),
    {
        if state {
            LaserState::On
        } else {
            LaserState::Standby
        }
    }

    pub open spec fn spec_from_bool(state: bool) -> Self {
        if state {
            LaserState::On
        } else {
            LaserState::Standby
        }
    }

    pub fn into_bool(self) -> (r: bool)
        ensures
            r == self.spec_into_bool(),
    {
        match self {
            LaserState::On => true,
            LaserState::Standby => false,
        }
    }

    pub open spec fn spec_into_bool(self) -> bool {
        self is On
    }
}

/// Negating a laser state twice gives it back.
pub proof fn lemma_laser_state_not_involution(x: LaserState)
    ensures
        x.spec_not().spec_not() == x,
{
}

/// A laser state built from a boolean reads back as that boolean.
pub proof fn lemma_laser_state_bool_round_trip(b: bool)
    ensures
        LaserState::spec_from_bool(b).spec_into_bool() == b,
{
}

/// The state of a beam shutter. `true` is `Open`, `false` is `Closed`.
#[derive(Debug, PartialEq, Eq, Structural, Clone, Copy)]
pub enum ShutterState {
    Open,
    Closed,
}

impl View for ShutterState {
    type V = ShutterState;

    open spec fn view(&self) -> ShutterState {
        *self
    }
}

impl From<bool> for ShutterState {
    /// Coerce a `bool` into a `ShutterState`:
    /// `true` is `Open` and `false` is `Closed`.
    fn from(state: bool) -> (r: Self) {
        if state {
            ShutterState::Open
        } else {
            ShutterState::Closed
        }
    }
}

impl vstd::std_specs::convert::FromSpecImpl<bool> for ShutterState {
    open spec fn obeys_from_spec() -> bool {
        true
    }

    open spec fn from_spec(state: bool) -> Self {
        ShutterState::spec_from_bool(state)
    }
}

impl ShutterState {
    /// The opposite shutter position.
    pub fn not(self) -> (r: Self)
        ensures
            r == self.spec_not(),
    {
        match self {
            ShutterState::Open => ShutterState::Closed,
            ShutterState::Closed => ShutterState::Open,
        }
    }

    pub open spec fn spec_not(self) -> Self {
        match self {
            ShutterState::Open => ShutterState::Closed,
            ShutterState::Closed => ShutterState::Open,
        }
    }

    pub fn from_bool(state: bool) -> (r: Self)
        ensures
            r == Self::spec_from_bool(state),
    {
        if state {
            ShutterState::Open
        } else {
            ShutterState::Closed
        }
    }

    pub open spec fn spec_from_bool(state: bool) -> Self {
        if state {
            ShutterState::Open
        } else {
            ShutterState::Closed
        }
    }

    pub fn into_bool(self) -> (r: bool)
        ensures
            r == self.spec_into_bool(),
    {
        match self {
            ShutterState::Open => true,
            ShutterState::Closed => false,
        }
    }

    pub open spec fn spec_into_bool(self) -> bool {
        self is Open
    }
}

/// Toggling a shutter state twice gives it back.
pub proof fn lemma_shutter_not_involution(x: ShutterState)
    ensures
        x.spec_not().spec_not() == x,
{
}

/// A shutter state built from a boolean reads back as that boolean.
pub proof fn lemma_shutter_bool_round_trip(b: bool)
    ensures
        ShutterState::spec_from_bool(b).spec_into_bool() == b,
{
}

/// Whether the variable-wavelength beam is still tuning toward a wavelength.
/// `true` is `Tuning`.
#[derive(Debug, PartialEq, Eq, Structural, Clone, Copy)]
pub enum TuningStatus {
    Tuning,
    Ready,
}

impl View for TuningStatus {
    type V = TuningStatus;

    open spec fn view(&self) -> TuningStatus {
        *self
    }
}

impl From<bool> for TuningStatus {
    /// `true` is `Tuning` and `false` is `Ready`.
    fn from(tuning: bool) -> (r: Self) {
        if tuning {
            TuningStatus::Tuning
        } else {
            TuningStatus::Ready
        }
    }
}

impl vstd::std_specs::convert::FromSpecImpl<bool> for TuningStatus {
    open spec fn obeys_from_spec() -> bool {
        true
    }

    open spec fn from_spec(tuning: bool) -> Self {
        TuningStatus::spec_from_bool(tuning)
    }
}

impl TuningStatus {
    /// The opposite tuning flag.
    pub fn not(self) -> (r: Self)
        ensures
            r == self.spec_not(),
    {
        match self {
            TuningStatus::Tuning => TuningStatus::Ready,
            TuningStatus::Ready => TuningStatus::Tuning,
        }
    }

    pub open spec fn spec_not(self) -> Self {
        match self {
            TuningStatus::Tuning => TuningStatus::Ready,
            TuningStatus::Ready => TuningStatus::Tuning,
        }
    }

    pub fn from_bool(tuning: bool) -> (r: Self)
        ensures
            r == Self::spec_from_bool(tuning),
    {
        if tuning {
            TuningStatus::Tuning
        } else {
            TuningStatus::Ready
        }
    }

    pub open spec fn spec_from_bool(tuning: bool) -> Self {
        if tuning {
            TuningStatus::Tuning
        } else {
            TuningStatus::Ready
        }
    }

    pub fn into_bool(self) -> (r: bool)
        ensures
            r == self.spec_into_bool(),
    {
        match self {
            TuningStatus::Tuning => true,
            TuningStatus::Ready => false,
        }
    }

    pub open spec fn spec_into_bool(self) -> bool {
        self is Tuning
    }
}

/// Toggling a tuning flag twice gives it back.
pub proof fn lemma_tuning_not_involution(x: TuningStatus)
    ensures
        x.spec_not().spec_not() == x,
{
}

/// A tuning flag built from a boolean reads back as that boolean.
pub proof fn lemma_tuning_bool_round_trip(b: bool)
    ensures
        TuningStatus::spec_from_bool(b).spec_into_bool() == b,
{
}

/// Anything that serializes to a wire token for the serial dialect:
/// commands and queries alike.
pub trait LaserCommand: Sized {
    /// The token this value puts on the serial line, without the
    /// terminating carriage return and line feed.
    spec fn token(&self) -> Seq<char>;

    /// Render the wire token.
    fn to_string(&self) -> (r: String)
        ensures
            r@ == self.token(),
    ;
}

/// A query: a command token that expects a typed response value.
pub trait Query: LaserCommand {
    type Result: View;

    /// What a residual response string parses to, if anything.
    spec fn parse_ok(&self, s: Seq<char>) -> Option<<Self::Result as View>::V>;

    /// Parse the residual of a response line (prompt and echo already
    /// stripped) into the query's result type. A residual the query cannot
    /// read is surfaced as `InvalidResponseError` carrying that residual.
    fn parse_result(&self, result: &str) -> (r: Result<Self::Result, CoherentError>)
        ensures
            match r {
                Ok(v) => self.parse_ok(result@) == Some(v@),
                Err(e) => self.parse_ok(result@) is None && (e matches
                    CoherentError::InvalidResponseError(raw) && raw@ == result@),
            },
    ;
}

} // verus!
