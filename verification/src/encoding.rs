//! The binary value encoding used on the TCP side.
//!
//! Status records, commands and the laser-model tag travel as
//! self-describing, length-prefixed bytes: enum variants as one tag byte,
//! integers in fixed-width little-endian form, strings as a length followed
//! by their UTF-8 bytes. A decoder therefore always knows where a value
//! ends without any terminator byte, which is what the record framing
//! relies on.

use vstd::prelude::*;
use vstd::bytes::{spec_u32_to_le_bytes, spec_u32_from_le_bytes, spec_u64_to_le_bytes,
    spec_u64_from_le_bytes, lemma_auto_spec_u32_to_from_le_bytes,
    lemma_auto_spec_u64_to_from_le_bytes, u32_to_le_bytes, u32_from_le_bytes, u64_to_le_bytes,
    u64_from_le_bytes};
use vstd::utf8::{valid_utf8, decode_utf8, encode_utf8, encode_utf8_valid_utf8,
    encode_utf8_decode_utf8};
use vstd::slice::{slice_subrange, slice_to_vec};
use crate::laser::{LaserType, LaserState, ShutterState, TuningStatus};
use crate::laser::discoverynx::{DiscoveryLaser, CommandView, StatusView, DiscoveryNXCommands,
    DiscoveryNXStatus};
use crate::units::Milli;

verus! {

pub open spec fn enc_bool(b: bool) -> Seq<u8> {
    seq![if b { 1u8 } else { 0u8 }]
}

pub open spec fn enc_u8(x: u8) -> Seq<u8> {
    seq![x]
}

pub open spec fn enc_u64(x: u64) -> Seq<u8> {
    spec_u64_to_le_bytes(x)
}

pub open spec fn enc_i64(x: i64) -> Seq<u8> {
    enc_u64(x as u64)
}

pub open spec fn enc_u32(x: u32) -> Seq<u8> {
    spec_u32_to_le_bytes(x)
}

pub open spec fn enc_i32(x: i32) -> Seq<u8> {
    enc_u32(x as u32)
}

pub open spec fn enc_str(s: Seq<char>) -> Seq<u8> {
    enc_u64(encode_utf8(s).len() as u64) + encode_utf8(s)
}

/// A character sequence whose UTF-8 form the length prefix can carry.
pub open spec fn wf_str(s: Seq<char>) -> bool {
    encode_utf8(s).len() < 0x1_0000_0000_0000_0000
}

pub open spec fn enc_laser_type(t: LaserType) -> Seq<u8> {
    match t {
        LaserType::DiscoveryNX => seq![0u8],
        LaserType::DebugLaser => seq![1u8],
        LaserType::UnrecognizedDevice => seq![2u8],
    }
}

pub open spec fn enc_laser_state(s: LaserState) -> Seq<u8> {
    match s {
        LaserState::Standby => seq![0u8],
        LaserState::On => seq![1u8],
    }
}

pub open spec fn enc_shutter_state(s: ShutterState) -> Seq<u8> {
    match s {
        ShutterState::Closed => seq![0u8],
        ShutterState::Open => seq![1u8],
    }
}

pub open spec fn enc_tuning_status(s: TuningStatus) -> Seq<u8> {
    match s {
        TuningStatus::Ready => seq![0u8],
        TuningStatus::Tuning => seq![1u8],
    }
}

pub open spec fn enc_discovery_laser(l: DiscoveryLaser) -> Seq<u8> {
    match l {
        DiscoveryLaser::VariableWavelength => seq![0u8],
        DiscoveryLaser::FixedWavelength => seq![1u8],
    }
}

pub open spec fn dec_byte(b: Seq<u8>, i: int) -> Option<(u8, int)> {
    if 0 <= i && i + 1 <= b.len() {
        Some((b[i], i + 1))
    } else {
        None
    }
}

pub open spec fn dec_bool(b: Seq<u8>, i: int) -> Option<(bool, int)> {
    match dec_byte(b, i) {
        Some((t, j)) => if t == 0 {
            Some((false, j))
        } else if t == 1 {
            Some((true, j))
        } else {
            None
        },
        None => None,
    }
}

pub open spec fn dec_u64(b: Seq<u8>, i: int) -> Option<(u64, int)> {
    if 0 <= i && i + 8 <= b.len() {
        Some((spec_u64_from_le_bytes(b.subrange(i, i + 8)), i + 8))
    } else {
        None
    }
}

pub open spec fn dec_i64(b: Seq<u8>, i: int) -> Option<(i64, int)> {
    match dec_u64(b, i) {
        Some((x, j)) => Some((x as i64, j)),
        None => None,
    }
}

pub open spec fn dec_u32(b: Seq<u8>, i: int) -> Option<(u32, int)> {
    if 0 <= i && i + 4 <= b.len() {
        Some((spec_u32_from_le_bytes(b.subrange(i, i + 4)), i + 4))
    } else {
        None
    }
}

pub open spec fn dec_i32(b: Seq<u8>, i: int) -> Option<(i32, int)> {
    match dec_u32(b, i) {
        Some((x, j)) => Some((x as i32, j)),
        None => None,
    }
}

pub open spec fn dec_str(b: Seq<u8>, i: int) -> Option<(Seq<char>, int)> {
    match dec_u64(b, i) {
        Some((n, j)) => if j + n <= b.len() && valid_utf8(b.subrange(j, j + n)) {
            Some((decode_utf8(b.subrange(j, j + n)), j + n))
        } else {
            None
        },
        None => None,
    }
}

pub open spec fn dec_laser_type(b: Seq<u8>, i: int) -> Option<(LaserType, int)> {
    match dec_byte(b, i) {
        Some((t, j)) => if t == 0 {
            Some((LaserType::DiscoveryNX, j))
        } else if t == 1 {
            Some((LaserType::DebugLaser, j))
        } else if t == 2 {
            Some((LaserType::UnrecognizedDevice, j))
        } else {
            None
        },
        None => None,
    }
}

pub open spec fn dec_laser_state(b: Seq<u8>, i: int) -> Option<(LaserState, int)> {
    match dec_byte(b, i) {
        Some((t, j)) => if t == 0 {
            Some((LaserState::Standby, j))
        } else if t == 1 {
            Some((LaserState::On, j))
        } else {
            None
        },
        None => None,
    }
}

pub open spec fn dec_shutter_state(b: Seq<u8>, i: int) -> Option<(ShutterState, int)> {
    match dec_byte(b, i) {
        Some((t, j)) => if t == 0 {
            Some((ShutterState::Closed, j))
        } else if t == 1 {
            Some((ShutterState::Open, j))
        } else {
            None
        },
        None => None,
    }
}

pub open spec fn dec_tuning_status(b: Seq<u8>, i: int) -> Option<(TuningStatus, int)> {
    match dec_byte(b, i) {
        Some((t, j)) => if t == 0 {
            Some((TuningStatus::Ready, j))
        } else if t == 1 {
            Some((TuningStatus::Tuning, j))
        } else {
            None
        },
        None => None,
    }
}

pub open spec fn dec_discovery_laser(b: Seq<u8>, i: int) -> Option<(DiscoveryLaser, int)> {
    match dec_byte(b, i) {
        Some((t, j)) => if t == 0 {
            Some((DiscoveryLaser::VariableWavelength, j))
        } else if t == 1 {
            Some((DiscoveryLaser::FixedWavelength, j))
        } else {
            None
        },
        None => None,
    }
}

/// A `u64` written anywhere in a byte string reads back as itself.
proof fn lemma_dec_u64_prefix(b: Seq<u8>, i: int, x: u64)
    requires
        0 <= i,
        i + 8 <= b.len(),
        b.subrange(i, i + 8) == enc_u64(x),
    ensures
        dec_u64(b, i) == Some((x, i + 8)),
{
    lemma_auto_spec_u64_to_from_le_bytes();
}

/// An `i64` written anywhere in a byte string reads back as itself.
proof fn lemma_dec_i64_prefix(b: Seq<u8>, i: int, x: i64)
    requires
        0 <= i,
        i + 8 <= b.len(),
        b.subrange(i, i + 8) == enc_i64(x),
    ensures
        dec_i64(b, i) == Some((x, i + 8)),
{
    lemma_dec_u64_prefix(b, i, x as u64);
    assert((x as u64) as i64 == x) by (bit_vector);
}

/// A `u32` written anywhere in a byte string reads back as itself.
proof fn lemma_dec_u32_prefix(b: Seq<u8>, i: int, x: u32)
    requires
        0 <= i,
        i + 4 <= b.len(),
        b.subrange(i, i + 4) == enc_u32(x),
    ensures
        dec_u32(b, i) == Some((x, i + 4)),
{
    lemma_auto_spec_u32_to_from_le_bytes();
    assert(spec_u32_to_le_bytes(x).len() >= 0);
}

/// An `i32` written anywhere in a byte string reads back as itself.
proof fn lemma_dec_i32_prefix(b: Seq<u8>, i: int, x: i32)
    requires
        0 <= i,
        i + 4 <= b.len(),
        b.subrange(i, i + 4) == enc_i32(x),
    ensures
        dec_i32(b, i) == Some((x, i + 4)),
{
    lemma_dec_u32_prefix(b, i, x as u32);
    assert((x as u32) as i32 == x) by (bit_vector);
}

/// A string written anywhere in a byte string reads back as itself.
proof fn lemma_dec_str_prefix(b: Seq<u8>, i: int, s: Seq<char>)
    requires
        wf_str(s),
        0 <= i,
        i + enc_str(s).len() <= b.len(),
        b.subrange(i, i + enc_str(s).len()) == enc_str(s),
    ensures
        dec_str(b, i) == Some((s, i + enc_str(s).len())),
{
    lemma_auto_spec_u64_to_from_le_bytes();
    let u = encode_utf8(s);
    let n = u.len() as u64;
    assert(enc_str(s).subrange(0, 8) =~= enc_u64(n));
    assert(b.subrange(i, i + 8) =~= enc_str(s).subrange(0, 8));
    lemma_dec_u64_prefix(b, i, n);
    assert(b.subrange(i + 8, i + 8 + u.len()) =~= enc_str(s).subrange(8, enc_str(s).len() as int));
    assert(enc_str(s).subrange(8, enc_str(s).len() as int) =~= u);
    encode_utf8_valid_utf8(s);
    encode_utf8_decode_utf8(s);
}

/// A command whose string payloads the length prefixes can carry.
pub open spec fn wf_command(c: CommandView) -> bool {
    match c {
        CommandView::GddCurveN { curve_name } => wf_str(curve_name),
        CommandView::SetCurveN { new_curve_name } => wf_str(new_curve_name),
        _ => true,
    }
}

/// A status record whose string payloads the length prefixes can carry.
pub open spec fn wf_status(v: StatusView) -> bool {
    wf_str(v.fault_text) && wf_str(v.status) && wf_str(v.gdd_curve_n)
}

pub open spec fn enc_command(c: CommandView) -> Seq<u8> {
    match c {
        CommandView::Echo { echo_on } => seq![0u8] + enc_bool(echo_on),
        CommandView::Laser { state } => seq![1u8] + enc_laser_state(state),
        CommandView::Shutter { laser, state } => seq![2u8] + enc_discovery_laser(laser)
            + enc_shutter_state(state),
        CommandView::FaultClear => seq![3u8],
        CommandView::AlignmentMode { laser, alignment_mode_on } => seq![4u8]
            + enc_discovery_laser(laser) + enc_bool(alignment_mode_on),
        CommandView::Wavelength { wavelength_milli_nm } => seq![5u8] + enc_i64(
            wavelength_milli_nm,
        ),
        CommandView::Heartbeat => seq![6u8],
        CommandView::GddCurve { curve_num } => seq![7u8] + enc_u8(curve_num),
        CommandView::GddCurveN { curve_name } => seq![8u8] + enc_str(curve_name),
        CommandView::Gdd { gdd_milli } => seq![9u8] + enc_i64(gdd_milli),
        CommandView::SetCurveN { new_curve_name } => seq![10u8] + enc_str(new_curve_name),
    }
}

pub open spec fn dec_command(b: Seq<u8>, i: int) -> Option<(CommandView, int)> {
    match dec_byte(b, i) {
        None => None,
        Some((tag, j)) => if tag == 0 {
            match dec_bool(b, j) {
                Some((v, k)) => Some((CommandView::Echo { echo_on: v }, k)),
                None => None,
            }
        } else if tag == 1 {
            match dec_laser_state(b, j) {
                Some((v, k)) => Some((CommandView::Laser { state: v }, k)),
                None => None,
            }
        } else if tag == 2 {
            match dec_discovery_laser(b, j) {
                Some((l, k)) => match dec_shutter_state(b, k) {
                    Some((v, m)) => Some((CommandView::Shutter { laser: l, state: v }, m)),
                    None => None,
                },
                None => None,
            }
        } else if tag == 3 {
            Some((CommandView::FaultClear, j))
        } else if tag == 4 {
            match dec_discovery_laser(b, j) {
                Some((l, k)) => match dec_bool(b, k) {
                    Some((v, m)) => Some(
                        (CommandView::AlignmentMode { laser: l, alignment_mode_on: v }, m),
                    ),
                    None => None,
                },
                None => None,
            }
        } else if tag == 5 {
            match dec_i64(b, j) {
                Some((v, k)) => Some((CommandView::Wavelength { wavelength_milli_nm: v }, k)),
                None => None,
            }
        } else if tag == 6 {
            Some((CommandView::Heartbeat, j))
        } else if tag == 7 {
            match dec_byte(b, j) {
                Some((v, k)) => Some((CommandView::GddCurve { curve_num: v }, k)),
                None => None,
            }
        } else if tag == 8 {
            match dec_str(b, j) {
                Some((v, k)) => Some((CommandView::GddCurveN { curve_name: v }, k)),
                None => None,
            }
        } else if tag == 9 {
            match dec_i64(b, j) {
                Some((v, k)) => Some((CommandView::Gdd { gdd_milli: v }, k)),
                None => None,
            }
        } else if tag == 10 {
            match dec_str(b, j) {
                Some((v, k)) => Some((CommandView::SetCurveN { new_curve_name: v }, k)),
                None => None,
            }
        } else {
            None
        },
    }
}

/// The six one-byte fields at the head of a status record.
pub open spec fn enc_status_head(v: StatusView) -> Seq<u8> {
    enc_bool(v.echo) + enc_laser_state(v.laser) + enc_shutter_state(v.variable_shutter)
        + enc_shutter_state(v.fixed_shutter) + enc_bool(v.keyswitch) + enc_u8(v.faults)
}

/// The three one-byte fields between the fault text and the status text.
pub open spec fn enc_status_mid(v: StatusView) -> Seq<u8> {
    enc_tuning_status(v.tuning) + enc_bool(v.alignment_var) + enc_bool(v.alignment_fixed)
}

/// The four fixed-width numeric fields after the status text.
pub open spec fn enc_status_nums(v: StatusView) -> Seq<u8> {
    enc_i64(v.wavelength_milli) + enc_i64(v.power_var_milli) + enc_i64(v.power_fixed_milli)
        + enc_i32(v.gdd_curve)
}

pub open spec fn enc_status(v: StatusView) -> Seq<u8> {
    enc_status_head(v) + enc_str(v.fault_text) + enc_status_mid(v) + enc_str(v.status)
        + enc_status_nums(v) + enc_str(v.gdd_curve_n) + enc_i64(v.gdd_milli)
}

pub open spec fn dec_status(b: Seq<u8>, i: int) -> Option<(StatusView, int)> {
    match dec_bool(b, i) {
        None => None,
        Some((echo, p1)) => match dec_laser_state(b, p1) {
            None => None,
            Some((laser, p2)) => match dec_shutter_state(b, p2) {
                None => None,
                Some((variable_shutter, p3)) => match dec_shutter_state(b, p3) {
                    None => None,
                    Some((fixed_shutter, p4)) => match dec_bool(b, p4) {
                        None => None,
                        Some((keyswitch, p5)) => match dec_byte(b, p5) {
                            None => None,
                            Some((faults, p6)) => match dec_str(b, p6) {
                                None => None,
                                Some((fault_text, p7)) => match dec_tuning_status(b, p7) {
                                    None => None,
                                    Some((tuning, p8)) => match dec_bool(b, p8) {
                                        None => None,
                                        Some((alignment_var, p9)) => match dec_bool(b, p9) {
                                            None => None,
                                            Some((alignment_fixed, p10)) => match dec_str(b, p10) {
                                                None => None,
                                                Some((status, p11)) => match dec_i64(b, p11) {
                                                    None => None,
                                                    Some((wavelength_milli, p12)) => match dec_i64(
                                                        b,
                                                        p12,
                                                    ) {
                                                        None => None,
                                                        Some((power_var_milli, p13)) => match
                                                            dec_i64(b, p13) {
                                                            None => None,
                                                            Some((power_fixed_milli, p14)) => match
                                                                dec_i32(b, p14) {
                                                                None => None,
                                                                Some((gdd_curve, p15)) => match
                                                                    dec_str(b, p15) {
                                                                    None => None,
                                                                    Some((gdd_curve_n, p16)) =>
                                                                        match dec_i64(b, p16) {
                                                                        None => None,
                                                                        Some((gdd_milli, p17)) =>
                                                                            Some(
                                                                            (
                                                                                StatusView {
                                                                                    echo,
                                                                                    laser,
                                                                                    variable_shutter,
                                                                                    fixed_shutter,
                                                                                    keyswitch,
                                                                                    faults,
                                                                                    fault_text,
                                                                                    tuning,
                                                                                    alignment_var,
                                                                                    alignment_fixed,
                                                                                    status,
                                                                                    wavelength_milli,
                                                                                    power_var_milli,
                                                                                    power_fixed_milli,
                                                                                    gdd_curve,
                                                                                    gdd_curve_n,
                                                                                    gdd_milli,
                                                                                },
                                                                                p17,
                                                                            ),
                                                                        ),
                                                                    },
                                                                },
                                                            },
                                                        },
                                                    },
                                                },
                                            },
                                        },
                                    },
                                },
                            },
                        },
                    },
                },
            },
        },
    }
}

proof fn lemma_enc_u64_len(x: u64)
    ensures
        enc_u64(x).len() == 8,
{
    lemma_auto_spec_u64_to_from_le_bytes();
}

proof fn lemma_enc_u32_len(x: u32)
    ensures
        enc_u32(x).len() == 4,
{
    lemma_auto_spec_u32_to_from_le_bytes();
    assert(spec_u32_to_le_bytes(x).len() >= 0);
}

/// A one-byte value written anywhere in a byte string reads back as itself,
/// for each of the tag-byte encodings.
proof fn lemma_dec_one_byte_prefix(b: Seq<u8>, i: int, e: Seq<u8>)
    requires
        0 <= i,
        i + 1 <= b.len(),
        e.len() == 1,
        b.subrange(i, i + 1) == e,
    ensures
        dec_byte(b, i) == Some((e[0], i + 1)),
{
    assert(b.subrange(i, i + 1)[0] == b[i]);
}

/// A byte string that holds `e` at position `i` holds `e`'s byte `off`
/// at position `i + off`.
proof fn lemma_byte_at(b: Seq<u8>, i: int, e: Seq<u8>, off: int)
    requires
        0 <= i,
        i + e.len() <= b.len(),
        b.subrange(i, i + e.len()) == e,
        0 <= off < e.len(),
    ensures
        b[i + off] == e[off],
{
    assert(b.subrange(i, i + e.len())[off] == b[i + off]);
}

/// A byte string that holds `e` at position `i` holds each piece of `e`
/// where that piece stands inside `e`.
proof fn lemma_sub_at(b: Seq<u8>, i: int, e: Seq<u8>, off: int, f: Seq<u8>)
    requires
        0 <= i,
        i + e.len() <= b.len(),
        b.subrange(i, i + e.len()) == e,
        0 <= off,
        off + f.len() <= e.len(),
        e.subrange(off, off + f.len()) == f,
    ensures
        b.subrange(i + off, i + off + f.len()) == f,
{
    assert forall|k: int| 0 <= k < f.len() implies b.subrange(i + off, i + off + f.len())[k]
        == f[k] by {
        assert(e.subrange(off, off + f.len())[k] == e[off + k]);
        assert(b.subrange(i, i + e.len())[off + k] == b[i + off + k]);
        assert(b.subrange(i + off, i + off + f.len())[k] == b[i + off + k]);
    }
    assert(b.subrange(i + off, i + off + f.len()) =~= f);
}

/// A command written anywhere in a byte string reads back as itself.
pub proof fn lemma_dec_command_prefix(b: Seq<u8>, i: int, c: CommandView)
    requires
        wf_command(c),
        0 <= i,
        i + enc_command(c).len() <= b.len(),
        b.subrange(i, i + enc_command(c).len()) == enc_command(c),
    ensures
        dec_command(b, i) == Some((c, i + enc_command(c).len())),
{
    let e = enc_command(c);
    lemma_byte_at(b, i, e, 0);
    match c {
        CommandView::Echo { echo_on } => {
            assert(e[1] == enc_bool(echo_on)[0]);
            lemma_byte_at(b, i, e, 1);
        },
        CommandView::Laser { state } => {
            assert(e[1] == enc_laser_state(state)[0]);
            lemma_byte_at(b, i, e, 1);
        },
        CommandView::Shutter { laser, state } => {
            assert(e[1] == enc_discovery_laser(laser)[0]);
            assert(e[2] == enc_shutter_state(state)[0]);
            lemma_byte_at(b, i, e, 1);
            lemma_byte_at(b, i, e, 2);
        },
        CommandView::FaultClear => {},
        CommandView::AlignmentMode { laser, alignment_mode_on } => {
            assert(e[1] == enc_discovery_laser(laser)[0]);
            assert(e[2] == enc_bool(alignment_mode_on)[0]);
            lemma_byte_at(b, i, e, 1);
            lemma_byte_at(b, i, e, 2);
        },
        CommandView::Wavelength { wavelength_milli_nm } => {
            lemma_enc_u64_len(#[verifier::truncate] (wavelength_milli_nm as u64));
            assert(e.subrange(1, 9) =~= enc_i64(wavelength_milli_nm));
            lemma_sub_at(b, i, e, 1, enc_i64(wavelength_milli_nm));
            lemma_dec_i64_prefix(b, i + 1, wavelength_milli_nm);
        },
        CommandView::Heartbeat => {},
        CommandView::GddCurve { curve_num } => {
            assert(e[1] == enc_u8(curve_num)[0]);
            lemma_byte_at(b, i, e, 1);
        },
        CommandView::GddCurveN { curve_name } => {
            lemma_enc_u64_len(encode_utf8(curve_name).len() as u64);
            assert(e.subrange(1, 1 + enc_str(curve_name).len() as int) =~= enc_str(curve_name));
            lemma_sub_at(b, i, e, 1, enc_str(curve_name));
            lemma_dec_str_prefix(b, i + 1, curve_name);
        },
        CommandView::Gdd { gdd_milli } => {
            lemma_enc_u64_len(#[verifier::truncate] (gdd_milli as u64));
            assert(e.subrange(1, 9) =~= enc_i64(gdd_milli));
            lemma_sub_at(b, i, e, 1, enc_i64(gdd_milli));
            lemma_dec_i64_prefix(b, i + 1, gdd_milli);
        },
        CommandView::SetCurveN { new_curve_name } => {
            lemma_enc_u64_len(encode_utf8(new_curve_name).len() as u64);
            assert(e.subrange(1, 1 + enc_str(new_curve_name).len() as int) =~= enc_str(new_curve_name));
            lemma_sub_at(b, i, e, 1, enc_str(new_curve_name));
            lemma_dec_str_prefix(b, i + 1, new_curve_name);
        },
    }
}

/// A status record written anywhere in a byte string reads back as itself.
#[verifier::spinoff_prover]
#[verifier::rlimit(100)]
pub proof fn lemma_dec_status_prefix(b: Seq<u8>, i: int, v: StatusView)
    requires
        wf_status(v),
        0 <= i,
        i + enc_status(v).len() <= b.len(),
        b.subrange(i, i + enc_status(v).len()) == enc_status(v),
    ensures
        dec_status(b, i) == Some((v, i + enc_status(v).len())),
{
    let e = enc_status(v);
    lemma_enc_u64_len(encode_utf8(v.fault_text).len() as u64);
    lemma_enc_u64_len(encode_utf8(v.status).len() as u64);
    lemma_enc_u64_len(encode_utf8(v.gdd_curve_n).len() as u64);
    lemma_enc_u64_len(#[verifier::truncate] (v.wavelength_milli as u64));
    lemma_enc_u64_len(#[verifier::truncate] (v.power_var_milli as u64));
    lemma_enc_u64_len(#[verifier::truncate] (v.power_fixed_milli as u64));
    lemma_enc_u64_len(#[verifier::truncate] (v.gdd_milli as u64));
    lemma_enc_u32_len(#[verifier::truncate] (v.gdd_curve as u32));
    let lft = enc_str(v.fault_text).len() as int;
    let lst = enc_str(v.status).len() as int;
    let lgn = enc_str(v.gdd_curve_n).len() as int;
    let o6: int = 6;
    let o7 = o6 + lft;
    let o10 = o7 + 3;
    let o11 = o10 + lst;
    let o15 = o11 + 28;
    let o16 = o15 + lgn;
    let o17 = o16 + 8;
    assert(e.len() == o17);
    assert(e[0] == enc_bool(v.echo)[0]);
    assert(e[1] == enc_laser_state(v.laser)[0]);
    assert(e[2] == enc_shutter_state(v.variable_shutter)[0]);
    assert(e[3] == enc_shutter_state(v.fixed_shutter)[0]);
    assert(e[4] == enc_bool(v.keyswitch)[0]);
    assert(e[5] == enc_u8(v.faults)[0]);
    assert(e[o7] == enc_tuning_status(v.tuning)[0]);
    assert(e[o7 + 1] == enc_bool(v.alignment_var)[0]);
    assert(e[o7 + 2] == enc_bool(v.alignment_fixed)[0]);
    lemma_byte_at(b, i, e, 0);
    lemma_byte_at(b, i, e, 1);
    lemma_byte_at(b, i, e, 2);
    lemma_byte_at(b, i, e, 3);
    lemma_byte_at(b, i, e, 4);
    lemma_byte_at(b, i, e, 5);
    lemma_byte_at(b, i, e, o7);
    lemma_byte_at(b, i, e, o7 + 1);
    lemma_byte_at(b, i, e, o7 + 2);
    assert(e.subrange(o6, o7) =~= enc_str(v.fault_text));
    lemma_sub_at(b, i, e, o6, enc_str(v.fault_text));
    lemma_dec_str_prefix(b, i + o6, v.fault_text);
    assert(e.subrange(o10, o11) =~= enc_str(v.status));
    lemma_sub_at(b, i, e, o10, enc_str(v.status));
    lemma_dec_str_prefix(b, i + o10, v.status);
    assert(e.subrange(o11, o11 + 8) =~= enc_i64(v.wavelength_milli));
    lemma_sub_at(b, i, e, o11, enc_i64(v.wavelength_milli));
    lemma_dec_i64_prefix(b, i + o11, v.wavelength_milli);
    assert(e.subrange(o11 + 8, o11 + 16) =~= enc_i64(v.power_var_milli));
    lemma_sub_at(b, i, e, o11 + 8, enc_i64(v.power_var_milli));
    lemma_dec_i64_prefix(b, i + o11 + 8, v.power_var_milli);
    assert(e.subrange(o11 + 16, o11 + 24) =~= enc_i64(v.power_fixed_milli));
    lemma_sub_at(b, i, e, o11 + 16, enc_i64(v.power_fixed_milli));
    lemma_dec_i64_prefix(b, i + o11 + 16, v.power_fixed_milli);
    assert(e.subrange(o11 + 24, o11 + 28) =~= enc_i32(v.gdd_curve));
    lemma_sub_at(b, i, e, o11 + 24, enc_i32(v.gdd_curve));
    lemma_dec_i32_prefix(b, i + o11 + 24, v.gdd_curve);
    assert(e.subrange(o15, o16) =~= enc_str(v.gdd_curve_n));
    lemma_sub_at(b, i, e, o15, enc_str(v.gdd_curve_n));
    lemma_dec_str_prefix(b, i + o15, v.gdd_curve_n);
    assert(e.subrange(o16, o17) =~= enc_i64(v.gdd_milli));
    lemma_sub_at(b, i, e, o16, enc_i64(v.gdd_milli));
    lemma_dec_i64_prefix(b, i + o16, v.gdd_milli);
    assert(dec_bool(b, i) == Some((v.echo, i + 1)));
    assert(dec_laser_state(b, i + 1) == Some((v.laser, i + 2)));
    assert(dec_shutter_state(b, i + 2) == Some((v.variable_shutter, i + 3)));
    assert(dec_shutter_state(b, i + 3) == Some((v.fixed_shutter, i + 4)));
    assert(dec_bool(b, i + 4) == Some((v.keyswitch, i + 5)));
    assert(dec_byte(b, i + 5) == Some((v.faults, i + 6)));
    assert(dec_str(b, i + o6) == Some((v.fault_text, i + o7)));
    assert(dec_tuning_status(b, i + o7) == Some((v.tuning, i + o7 + 1)));
    assert(dec_bool(b, i + o7 + 1) == Some((v.alignment_var, i + o7 + 2)));
    assert(dec_bool(b, i + o7 + 2) == Some((v.alignment_fixed, i + o10)));
    assert(dec_str(b, i + o10) == Some((v.status, i + o11)));
    assert(dec_i64(b, i + o11) == Some((v.wavelength_milli, i + o11 + 8)));
    assert(dec_i64(b, i + o11 + 8) == Some((v.power_var_milli, i + o11 + 16)));
    assert(dec_i64(b, i + o11 + 16) == Some((v.power_fixed_milli, i + o11 + 24)));
    assert(dec_i32(b, i + o11 + 24) == Some((v.gdd_curve, i + o15)));
    assert(dec_str(b, i + o15) == Some((v.gdd_curve_n, i + o16)));
    assert(dec_i64(b, i + o16) == Some((v.gdd_milli, i + o17)));
}

/// An encoded laser model, followed by anything, decodes back to itself.
pub proof fn lemma_laser_type_round_trip(t: LaserType, rest: Seq<u8>)
    ensures
        dec_laser_type(enc_laser_type(t) + rest, 0) == Some((t, 1int)),
{
    let b = enc_laser_type(t) + rest;
    assert(b[0] == enc_laser_type(t)[0]);
}

/// An encoded command, followed by anything, decodes back to itself:
/// the encoding round-trips.
pub proof fn lemma_command_round_trip(c: CommandView, rest: Seq<u8>)
    requires
        wf_command(c),
    ensures
        dec_command(enc_command(c) + rest, 0) == Some(
            (c, enc_command(c).len() as int),
        ),
{
    let b = enc_command(c) + rest;
    assert(b.subrange(0, enc_command(c).len() as int) =~= enc_command(c));
    lemma_dec_command_prefix(b, 0, c);
}

/// An encoded status record, followed by anything, decodes back to itself:
/// the encoding round-trips.
pub proof fn lemma_status_round_trip(v: StatusView, rest: Seq<u8>)
    requires
        wf_status(v),
    ensures
        dec_status(enc_status(v) + rest, 0) == Some((v, enc_status(v).len() as int)),
{
    let b = enc_status(v) + rest;
    assert(b.subrange(0, enc_status(v).len() as int) =~= enc_status(v));
    lemma_dec_status_prefix(b, 0, v);
}

/// Relies on `String::from_utf8`: it returns `Ok` exactly on valid UTF-8
/// input, and the returned string holds exactly the given bytes.
#[verifier::external_body]
fn string_from_utf8(v: Vec<u8>) -> (r: Option<String>)
    ensures
        r is Some <==> valid_utf8(v@),
        r matches Some(s) ==> encode_utf8(s@) == v@,
{
    String::from_utf8(v).ok()
}

fn encode_bool(out: &mut Vec<u8>, b: bool)
    ensures
        final(out)@ == old(out)@ + enc_bool(b),
{
    if b {
        out.push(1);
    } else {
        out.push(0);
    }
    assert(out@ =~= old(out)@ + enc_bool(b));
}

fn encode_u8(out: &mut Vec<u8>, x: u8)
    ensures
        final(out)@ == old(out)@ + enc_u8(x),
{
    out.push(x);
    assert(out@ =~= old(out)@ + enc_u8(x));
}

fn encode_u64(out: &mut Vec<u8>, x: u64)
    ensures
        final(out)@ == old(out)@ + enc_u64(x),
{
    let mut bytes = u64_to_le_bytes(x);
    out.append(&mut bytes);
}

fn encode_i64(out: &mut Vec<u8>, x: i64)
    ensures
        final(out)@ == old(out)@ + enc_i64(x),
{
    encode_u64(out, #[verifier::truncate] (x as u64));
}

fn encode_u32(out: &mut Vec<u8>, x: u32)
    ensures
        final(out)@ == old(out)@ + enc_u32(x),
{
    let mut bytes = u32_to_le_bytes(x);
    out.append(&mut bytes);
}

fn encode_i32(out: &mut Vec<u8>, x: i32)
    ensures
        final(out)@ == old(out)@ + enc_i32(x),
{
    encode_u32(out, #[verifier::truncate] (x as u32));
}

fn encode_str(out: &mut Vec<u8>, s: &str)
    ensures
        final(out)@ == old(out)@ + enc_str(s@),
{
    let mut bytes = s.as_bytes_vec();
    let n = bytes.len();
    encode_u64(out, n as u64);
    out.append(&mut bytes);
    assert(out@ =~= old(out)@ + enc_str(s@));
}

fn encode_laser_state(out: &mut Vec<u8>, x: LaserState)
    ensures
        final(out)@ == old(out)@ + enc_laser_state(x),
{
    match x {
        LaserState::Standby => out.push(0),
        LaserState::On => out.push(1),
    }
    assert(out@ =~= old(out)@ + enc_laser_state(x));
}

fn encode_shutter_state(out: &mut Vec<u8>, x: ShutterState)
    ensures
        final(out)@ == old(out)@ + enc_shutter_state(x),
{
    match x {
        ShutterState::Closed => out.push(0),
        ShutterState::Open => out.push(1),
    }
    assert(out@ =~= old(out)@ + enc_shutter_state(x));
}

fn encode_tuning_status(out: &mut Vec<u8>, x: TuningStatus)
    ensures
        final(out)@ == old(out)@ + enc_tuning_status(x),
{
    match x {
        TuningStatus::Ready => out.push(0),
        TuningStatus::Tuning => out.push(1),
    }
    assert(out@ =~= old(out)@ + enc_tuning_status(x));
}

fn encode_discovery_laser(out: &mut Vec<u8>, x: DiscoveryLaser)
    ensures
        final(out)@ == old(out)@ + enc_discovery_laser(x),
{
    match x {
        DiscoveryLaser::VariableWavelength => out.push(0),
        DiscoveryLaser::FixedWavelength => out.push(1),
    }
    assert(out@ =~= old(out)@ + enc_discovery_laser(x));
}

/// Append the encoding of a laser model.
pub fn encode_laser_type(out: &mut Vec<u8>, x: LaserType)
    ensures
        final(out)@ == old(out)@ + enc_laser_type(x),
{
    match x {
        LaserType::DiscoveryNX => out.push(0),
        LaserType::DebugLaser => out.push(1),
        LaserType::UnrecognizedDevice => out.push(2),
    }
    assert(out@ =~= old(out)@ + enc_laser_type(x));
}

/// Append the encoding of a command.
pub fn encode_command(out: &mut Vec<u8>, c: &DiscoveryNXCommands)
    ensures
        final(out)@ == old(out)@ + enc_command(c@),
{
    match c {
        DiscoveryNXCommands::Echo { echo_on } => {
            out.push(0);
            encode_bool(out, *echo_on);
        },
        DiscoveryNXCommands::Laser { state } => {
            out.push(1);
            encode_laser_state(out, *state);
        },
        DiscoveryNXCommands::Shutter { laser, state } => {
            out.push(2);
            encode_discovery_laser(out, *laser);
            encode_shutter_state(out, *state);
        },
        DiscoveryNXCommands::FaultClear => {
            out.push(3);
        },
        DiscoveryNXCommands::AlignmentMode { laser, alignment_mode_on } => {
            out.push(4);
            encode_discovery_laser(out, *laser);
            encode_bool(out, *alignment_mode_on);
        },
        DiscoveryNXCommands::Wavelength { wavelength_nm } => {
            out.push(5);
            encode_i64(out, wavelength_nm.milli);
        },
        DiscoveryNXCommands::Heartbeat => {
            out.push(6);
        },
        DiscoveryNXCommands::GddCurve { curve_num } => {
            out.push(7);
            encode_u8(out, *curve_num);
        },
        DiscoveryNXCommands::GddCurveN { curve_name } => {
            out.push(8);
            encode_str(out, curve_name.as_str());
        },
        DiscoveryNXCommands::Gdd { gdd_val } => {
            out.push(9);
            encode_i64(out, gdd_val.milli);
        },
        DiscoveryNXCommands::SetCurveN { new_curve_name } => {
            out.push(10);
            encode_str(out, new_curve_name.as_str());
        },
    }
    assert(out@ =~= old(out)@ + enc_command(c@));
}

/// Append the encoding of a status record.
#[verifier::spinoff_prover]
#[verifier::rlimit(100)]
pub fn encode_status(out: &mut Vec<u8>, v: &DiscoveryNXStatus)
    ensures
        final(out)@ == old(out)@ + enc_status(v@),
{
    encode_bool(out, v.echo);
    encode_laser_state(out, v.laser);
    encode_shutter_state(out, v.variable_shutter);
    encode_shutter_state(out, v.fixed_shutter);
    encode_bool(out, v.keyswitch);
    encode_u8(out, v.faults);
    assert(out@ =~= old(out)@ + enc_status_head(v@));
    encode_str(out, v.fault_text.as_str());
    encode_tuning_status(out, v.tuning);
    encode_bool(out, v.alignment_var);
    encode_bool(out, v.alignment_fixed);
    assert(out@ =~= old(out)@ + enc_status_head(v@) + enc_str(v@.fault_text) + enc_status_mid(
        v@,
    ));
    encode_str(out, v.status.as_str());
    encode_i64(out, v.wavelength.milli);
    encode_i64(out, v.power_var.milli);
    encode_i64(out, v.power_fixed.milli);
    encode_i32(out, v.gdd_curve);
    assert(out@ =~= old(out)@ + enc_status_head(v@) + enc_str(v@.fault_text) + enc_status_mid(v@)
        + enc_str(v@.status) + enc_status_nums(v@));
    encode_str(out, v.gdd_curve_n.as_str());
    encode_i64(out, v.gdd.milli);
    assert(out@ =~= old(out)@ + enc_status(v@));
}

fn decode_byte(b: &[u8], i: usize) -> (r: Option<(u8, usize)>)
    ensures
        match r {
            Some((x, j)) => dec_byte(b@, i as int) == Some((x, j as int)),
            None => dec_byte(b@, i as int) is None,
        },
{
    if i < b.len() {
        Some((b[i], i + 1))
    } else {
        None
    }
}

fn decode_bool(b: &[u8], i: usize) -> (r: Option<(bool, usize)>)
    ensures
        match r {
            Some((x, j)) => dec_bool(b@, i as int) == Some((x, j as int)),
            None => dec_bool(b@, i as int) is None,
        },
{
    match decode_byte(b, i) {
        Some((t, j)) => if t == 0 {
            Some((false, j))
        } else if t == 1 {
            Some((true, j))
        } else {
            None
        },
        None => None,
    }
}

fn decode_u64(b: &[u8], i: usize) -> (r: Option<(u64, usize)>)
    ensures
        match r {
            Some((x, j)) => dec_u64(b@, i as int) == Some((x, j as int)),
            None => dec_u64(b@, i as int) is None,
        },
{
    let n = b.len();
    if i < n && n - i >= 8 {
        let sub = slice_subrange(b, i, i + 8);
        Some((u64_from_le_bytes(sub), i + 8))
    } else {
        None
    }
}

fn decode_i64(b: &[u8], i: usize) -> (r: Option<(i64, usize)>)
    ensures
        match r {
            Some((x, j)) => dec_i64(b@, i as int) == Some((x, j as int)),
            None => dec_i64(b@, i as int) is None,
        },
{
    match decode_u64(b, i) {
        Some((x, j)) => Some((#[verifier::truncate] (x as i64), j)),
        None => None,
    }
}

fn decode_u32(b: &[u8], i: usize) -> (r: Option<(u32, usize)>)
    ensures
        match r {
            Some((x, j)) => dec_u32(b@, i as int) == Some((x, j as int)),
            None => dec_u32(b@, i as int) is None,
        },
{
    let n = b.len();
    if i < n && n - i >= 4 {
        let sub = slice_subrange(b, i, i + 4);
        Some((u32_from_le_bytes(sub), i + 4))
    } else {
        None
    }
}

fn decode_i32(b: &[u8], i: usize) -> (r: Option<(i32, usize)>)
    ensures
        match r {
            Some((x, j)) => dec_i32(b@, i as int) == Some((x, j as int)),
            None => dec_i32(b@, i as int) is None,
        },
{
    match decode_u32(b, i) {
        Some((x, j)) => Some((#[verifier::truncate] (x as i32), j)),
        None => None,
    }
}

fn decode_str(b: &[u8], i: usize) -> (r: Option<(String, usize)>)
    ensures
        match r {
            Some((s, j)) => dec_str(b@, i as int) == Some((s@, j as int)),
            None => dec_str(b@, i as int) is None,
        },
{
    match decode_u64(b, i) {
        None => None,
        Some((n, j)) => {
            let rem = b.len() - j;
            if n <= rem as u64 {
                let end = j + (n as usize);
                let bytes = slice_to_vec(slice_subrange(b, j, end));
                match string_from_utf8(bytes) {
                    Some(s) => {
                        proof {
                            encode_utf8_decode_utf8(s@);
                        }
                        Some((s, end))
                    },
                    None => None,
                }
            } else {
                None
            }
        },
    }
}

/// Decode a laser model at position `i`.
pub fn decode_laser_type(b: &[u8], i: usize) -> (r: Option<(LaserType, usize)>)
    ensures
        match r {
            Some((x, j)) => dec_laser_type(b@, i as int) == Some((x, j as int)),
            None => dec_laser_type(b@, i as int) is None,
        },
{
    match decode_byte(b, i) {
        Some((t, j)) => if t == 0 {
            Some((LaserType::DiscoveryNX, j))
        } else if t == 1 {
            Some((LaserType::DebugLaser, j))
        } else if t == 2 {
            Some((LaserType::UnrecognizedDevice, j))
        } else {
            None
        },
        None => None,
    }
}

fn decode_laser_state(b: &[u8], i: usize) -> (r: Option<(LaserState, usize)>)
    ensures
        match r {
            Some((x, j)) => dec_laser_state(b@, i as int) == Some((x, j as int)),
            None => dec_laser_state(b@, i as int) is None,
        },
{
    match decode_byte(b, i) {
        Some((t, j)) => if t == 0 {
            Some((LaserState::Standby, j))
        } else if t == 1 {
            Some((LaserState::On, j))
        } else {
            None
        },
        None => None,
    }
}

fn decode_shutter_state(b: &[u8], i: usize) -> (r: Option<(ShutterState, usize)>)
    ensures
        match r {
            Some((x, j)) => dec_shutter_state(b@, i as int) == Some((x, j as int)),
            None => dec_shutter_state(b@, i as int) is None,
        },
{
    match decode_byte(b, i) {
        Some((t, j)) => if t == 0 {
            Some((ShutterState::Closed, j))
        } else if t == 1 {
            Some((ShutterState::Open, j))
        } else {
            None
        },
        None => None,
    }
}

fn decode_tuning_status(b: &[u8], i: usize) -> (r: Option<(TuningStatus, usize)>)
    ensures
        match r {
            Some((x, j)) => dec_tuning_status(b@, i as int) == Some((x, j as int)),
            None => dec_tuning_status(b@, i as int) is None,
        },
{
    match decode_byte(b, i) {
        Some((t, j)) => if t == 0 {
            Some((TuningStatus::Ready, j))
        } else if t == 1 {
            Some((TuningStatus::Tuning, j))
        } else {
            None
        },
        None => None,
    }
}

fn decode_discovery_laser(b: &[u8], i: usize) -> (r: Option<(DiscoveryLaser, usize)>)
    ensures
        match r {
            Some((x, j)) => dec_discovery_laser(b@, i as int) == Some((x, j as int)),
            None => dec_discovery_laser(b@, i as int) is None,
        },
{
    match decode_byte(b, i) {
        Some((t, j)) => if t == 0 {
            Some((DiscoveryLaser::VariableWavelength, j))
        } else if t == 1 {
            Some((DiscoveryLaser::FixedWavelength, j))
        } else {
            None
        },
        None => None,
    }
}

/// Decode a command at position `i`.
pub fn decode_command(b: &[u8], i: usize) -> (r: Option<(DiscoveryNXCommands, usize)>)
    ensures
        match r {
            Some((c, j)) => dec_command(b@, i as int) == Some((c@, j as int)),
            None => dec_command(b@, i as int) is None,
        },
{
    match decode_byte(b, i) {
        None => None,
        Some((tag, j)) => if tag == 0 {
            match decode_bool(b, j) {
                Some((v, k)) => Some((DiscoveryNXCommands::Echo { echo_on: v }, k)),
                None => None,
            }
        } else if tag == 1 {
            match decode_laser_state(b, j) {
                Some((v, k)) => Some((DiscoveryNXCommands::Laser { state: v }, k)),
                None => None,
            }
        } else if tag == 2 {
            match decode_discovery_laser(b, j) {
                Some((l, k)) => match decode_shutter_state(b, k) {
                    Some((v, m)) => Some((DiscoveryNXCommands::Shutter { laser: l, state: v }, m)),
                    None => None,
                },
                None => None,
            }
        } else if tag == 3 {
            Some((DiscoveryNXCommands::FaultClear, j))
        } else if tag == 4 {
            match decode_discovery_laser(b, j) {
                Some((l, k)) => match decode_bool(b, k) {
                    Some((v, m)) => Some(
                        (DiscoveryNXCommands::AlignmentMode { laser: l, alignment_mode_on: v }, m),
                    ),
                    None => None,
                },
                None => None,
            }
        } else if tag == 5 {
            match decode_i64(b, j) {
                Some((v, k)) => Some(
                    (DiscoveryNXCommands::Wavelength { wavelength_nm: Milli { milli: v } }, k),
                ),
                None => None,
            }
        } else if tag == 6 {
            Some((DiscoveryNXCommands::Heartbeat, j))
        } else if tag == 7 {
            match decode_byte(b, j) {
                Some((v, k)) => Some((DiscoveryNXCommands::GddCurve { curve_num: v }, k)),
                None => None,
            }
        } else if tag == 8 {
            match decode_str(b, j) {
                Some((v, k)) => Some((DiscoveryNXCommands::GddCurveN { curve_name: v }, k)),
                None => None,
            }
        } else if tag == 9 {
            match decode_i64(b, j) {
                Some((v, k)) => Some(
                    (DiscoveryNXCommands::Gdd { gdd_val: Milli { milli: v } }, k),
                ),
                None => None,
            }
        } else if tag == 10 {
            match decode_str(b, j) {
                Some((v, k)) => Some((DiscoveryNXCommands::SetCurveN { new_curve_name: v }, k)),
                None => None,
            }
        } else {
            None
        },
    }
}

/// Decode a status record at position `i`.
pub fn decode_status(b: &[u8], i: usize) -> (r: Option<(DiscoveryNXStatus, usize)>)
    ensures
        match r {
            Some((v, j)) => dec_status(b@, i as int) == Some((v@, j as int)),
            None => dec_status(b@, i as int) is None,
        },
{
    let (echo, p) = match decode_bool(b, i) {
        Some(x) => x,
        None => {
            return None;
        },
    };
    let (laser, p) = match decode_laser_state(b, p) {
        Some(x) => x,
        None => {
            return None;
        },
    };
    let (variable_shutter, p) = match decode_shutter_state(b, p) {
        Some(x) => x,
        None => {
            return None;
        },
    };
    let (fixed_shutter, p) = match decode_shutter_state(b, p) {
        Some(x) => x,
        None => {
            return None;
        },
    };
    let (keyswitch, p) = match decode_bool(b, p) {
        Some(x) => x,
        None => {
            return None;
        },
    };
    let (faults, p) = match decode_byte(b, p) {
        Some(x) => x,
        None => {
            return None;
        },
    };
    let (fault_text, p) = match decode_str(b, p) {
        Some(x) => x,
        None => {
            return None;
        },
    };
    let (tuning, p) = match decode_tuning_status(b, p) {
        Some(x) => x,
        None => {
            return None;
        },
    };
    let (alignment_var, p) = match decode_bool(b, p) {
        Some(x) => x,
        None => {
            return None;
        },
    };
    let (alignment_fixed, p) = match decode_bool(b, p) {
        Some(x) => x,
        None => {
            return None;
        },
    };
    let (status, p) = match decode_str(b, p) {
        Some(x) => x,
        None => {
            return None;
        },
    };
    let (wavelength, p) = match decode_i64(b, p) {
        Some(x) => x,
        None => {
            return None;
        },
    };
    let (power_var, p) = match decode_i64(b, p) {
        Some(x) => x,
        None => {
            return None;
        },
    };
    let (power_fixed, p) = match decode_i64(b, p) {
        Some(x) => x,
        None => {
            return None;
        },
    };
    let (gdd_curve, p) = match decode_i32(b, p) {
        Some(x) => x,
        None => {
            return None;
        },
    };
    let (gdd_curve_n, p) = match decode_str(b, p) {
        Some(x) => x,
        None => {
            return None;
        },
    };
    let (gdd, p) = match decode_i64(b, p) {
        Some(x) => x,
        None => {
            return None;
        },
    };
    Some(
        (
            DiscoveryNXStatus {
                echo,
                laser,
                variable_shutter,
                fixed_shutter,
                keyswitch,
                faults,
                fault_text,
                tuning,
                alignment_var,
                alignment_fixed,
                status,
                wavelength: Milli { milli: wavelength },
                power_var: Milli { milli: power_var },
                power_fixed: Milli { milli: power_fixed },
                gdd_curve,
                gdd_curve_n,
                gdd: Milli { milli: gdd },
            },
            p,
        ),
    )
}

} // verus!
