//! Record framing on the TCP byte stream.
//!
//! The stream is a concatenation of marker-led records: a `Laser ID: `
//! record on accept, `Status: ` records from the broadcaster, `Command: `
//! records from peers, and newline-terminated literal verbs and replies.
//! Because an encoded payload may itself contain any byte, a reader finds
//! the *last* status marker (and the *first* command marker) and then lets
//! the self-delimiting encoding say where the value ends.

use vstd::prelude::*;
use crate::laser::LaserType;
use crate::laser::discoverynx::{DiscoveryNXCommands, DiscoveryNXStatus, CommandView, StatusView};
use crate::encoding::{enc_status, enc_command, enc_laser_type, dec_status, dec_command,
    dec_laser_type, wf_status, wf_command, encode_status, encode_command, encode_laser_type,
    decode_status, decode_command, decode_laser_type};

verus! {

pub open spec fn spec_status_marker() -> Seq<u8> {
    seq!['S' as u8, 't' as u8, 'a' as u8, 't' as u8, 'u' as u8, 's' as u8, ':' as u8, ' ' as u8]
}

pub open spec fn spec_command_marker() -> Seq<u8> {
    seq![
        'C' as u8,
        'o' as u8,
        'm' as u8,
        'm' as u8,
        'a' as u8,
        'n' as u8,
        'd' as u8,
        ':' as u8,
        ' ' as u8,
    ]
}

pub open spec fn spec_laser_id_marker() -> Seq<u8> {
    seq![
        'L' as u8,
        'a' as u8,
        's' as u8,
        'e' as u8,
        'r' as u8,
        ' ' as u8,
        'I' as u8,
        'D' as u8,
        ':' as u8,
        ' ' as u8,
    ]
}

pub open spec fn spec_terminator() -> Seq<u8> {
    seq!['\n' as u8]
}

/// The `Status: ` marker that leads a status record.
pub fn status_marker() -> (r: Vec<u8>)
    ensures
        r@ == spec_status_marker(),
{
    let mut v: Vec<u8> = Vec::new();
    v.push('S' as u8);
    v.push('t' as u8);
    v.push('a' as u8);
    v.push('t' as u8);
    v.push('u' as u8);
    v.push('s' as u8);
    v.push(':' as u8);
    v.push(' ' as u8);
    proof {
        assert(v@ =~= spec_status_marker());
    }
    v
}

/// The `Command: ` marker that leads a command record.
pub fn command_marker() -> (r: Vec<u8>)
    ensures
        r@ == spec_command_marker(),
{
    let mut v: Vec<u8> = Vec::new();
    v.push('C' as u8);
    v.push('o' as u8);
    v.push('m' as u8);
    v.push('m' as u8);
    v.push('a' as u8);
    v.push('n' as u8);
    v.push('d' as u8);
    v.push(':' as u8);
    v.push(' ' as u8);
    proof {
        assert(v@ =~= spec_command_marker());
    }
    v
}

/// The `Laser ID: ` marker that leads the handshake record.
pub fn laser_id_marker() -> (r: Vec<u8>)
    ensures
        r@ == spec_laser_id_marker(),
{
    let mut v: Vec<u8> = Vec::new();
    v.push('L' as u8);
    v.push('a' as u8);
    v.push('s' as u8);
    v.push('e' as u8);
    v.push('r' as u8);
    v.push(' ' as u8);
    v.push('I' as u8);
    v.push('D' as u8);
    v.push(':' as u8);
    v.push(' ' as u8);
    proof {
        assert(v@ =~= spec_laser_id_marker());
    }
    v
}

/// A complete status record: marker, encoded status, terminator.
pub open spec fn spec_status_record(v: StatusView) -> Seq<u8> {
    spec_status_marker() + enc_status(v) + spec_terminator()
}

/// A complete command record: marker, encoded command, terminator.
pub open spec fn spec_command_record(c: CommandView) -> Seq<u8> {
    spec_command_marker() + enc_command(c) + spec_terminator()
}

/// A complete handshake record: marker, encoded model, terminator.
pub open spec fn spec_laser_id_record(t: LaserType) -> Seq<u8> {
    spec_laser_id_marker() + enc_laser_type(t) + spec_terminator()
}

/// Frame a status record around an already-encoded status payload.
pub fn frame_status_payload(payload: &Vec<u8>) -> (r: Vec<u8>)
    ensures
        r@ == spec_status_marker() + payload@ + spec_terminator(),
{
    let mut r = status_marker();
    let mut p = payload.clone();
    r.append(&mut p);
    r.push('\n' as u8);
    proof {
        assert(r@ =~= spec_status_marker() + payload@ + spec_terminator());
    }
    r
}

/// Frame a full status record for one status value.
pub fn frame_status(s: &DiscoveryNXStatus) -> (r: Vec<u8>)
    ensures
        r@ == spec_status_record(s@),
{
    let mut r = status_marker();
    encode_status(&mut r, s);
    r.push('\n' as u8);
    proof {
        assert(r@ =~= spec_status_record(s@));
    }
    r
}

/// Frame a full command record for one command.
pub fn frame_command(c: &DiscoveryNXCommands) -> (r: Vec<u8>)
    ensures
        r@ == spec_command_record(c@),
{
    let mut r = command_marker();
    encode_command(&mut r, c);
    r.push('\n' as u8);
    proof {
        assert(r@ =~= spec_command_record(c@));
    }
    r
}

/// Frame the handshake record for one laser model.
pub fn frame_laser_id(t: LaserType) -> (r: Vec<u8>)
    ensures
        r@ == spec_laser_id_record(t),
{
    let mut r = laser_id_marker();
    encode_laser_type(&mut r, t);
    r.push('\n' as u8);
    proof {
        assert(r@ =~= spec_laser_id_record(t));
    }
    r
}

/// `n` matched against `h` at byte position `i`.
pub open spec fn spec_bytes_at(h: Seq<u8>, n: Seq<u8>, i: int) -> bool {
    0 <= i && i + n.len() <= h.len() && h.subrange(i, i + n.len()) == n
}

/// The last match of `n` strictly before position `hi`.
pub open spec fn spec_last_match_before(h: Seq<u8>, n: Seq<u8>, hi: int) -> Option<int>
    decreases hi,
{
    if hi <= 0 {
        None
    } else if spec_bytes_at(h, n, hi - 1) {
        Some(hi - 1)
    } else {
        spec_last_match_before(h, n, hi - 1)
    }
}

/// Where `n` last occurs in `h`, scanning from the end.
pub open spec fn spec_last_match(h: Seq<u8>, n: Seq<u8>) -> Option<int> {
    spec_last_match_before(h, n, h.len() - n.len() + 1)
}

/// The first match of `n` at position `i` or later.
pub open spec fn spec_first_match_from(h: Seq<u8>, n: Seq<u8>, i: int) -> Option<int>
    decreases h.len() - i,
{
    if i < 0 || n.len() == 0 || i + n.len() > h.len() {
        None
    } else if spec_bytes_at(h, n, i) {
        Some(i)
    } else {
        spec_first_match_from(h, n, i + 1)
    }
}

/// Where `n` first occurs in `h`.
pub open spec fn spec_first_match(h: Seq<u8>, n: Seq<u8>) -> Option<int> {
    spec_first_match_from(h, n, 0)
}

/// What a buffer yields as a status: decode after the last status marker.
pub open spec fn spec_decode_status_record(buf: Seq<u8>) -> Option<StatusView> {
    match spec_last_match(buf, spec_status_marker()) {
        Some(i) => match dec_status(buf, i + spec_status_marker().len()) {
            Some((v, _)) => Some(v),
            None => None,
        },
        None => None,
    }
}

/// What a buffer yields as a command: decode after the first command marker.
pub open spec fn spec_decode_command_record(buf: Seq<u8>) -> Option<CommandView> {
    match spec_first_match(buf, spec_command_marker()) {
        Some(i) => match dec_command(buf, i + spec_command_marker().len()) {
            Some((c, _)) => Some(c),
            None => None,
        },
        None => None,
    }
}

/// What a buffer yields as a laser model: decode after the first handshake
/// marker.
pub open spec fn spec_decode_laser_id(buf: Seq<u8>) -> Option<LaserType> {
    match spec_first_match(buf, spec_laser_id_marker()) {
        Some(i) => match dec_laser_type(buf, i + spec_laser_id_marker().len()) {
            Some((t, _)) => Some(t),
            None => None,
        },
        None => None,
    }
}

/// Whether `n` matches `h` at byte position `i`.
fn bytes_at(h: &[u8], n: &[u8], i: usize) -> (r: bool)
    requires
        i + n@.len() <= h@.len(),
    ensures
        r == spec_bytes_at(h@, n@, i as int),
{
    let lh = h.len();
    let ln = n.len();
    let mut k: usize = 0;
    while k < ln
        invariant
            0 <= k <= ln,
            ln == n@.len(),
            lh == h@.len(),
            i + ln <= lh,
            forall|j: int| 0 <= j < k ==> h@[i + j] == n@[j],
        decreases ln - k,
    {
        if h[i + k] != n[k] {
            proof {
                assert(h@.subrange(i as int, i + n@.len())[k as int] == h@[i + k]);
            }
            return false;
        }
        k += 1;
    }
    proof {
        assert(h@.subrange(i as int, i + n@.len()) =~= n@);
    }
    true
}

/// Whether the buffer begins with the given byte prefix.
pub fn starts_with_bytes(h: &[u8], p: &[u8]) -> (r: bool)
    ensures
        r == spec_bytes_at(h@, p@, 0),
{
    if p.len() > h.len() {
        return false;
    }
    bytes_at(h, p, 0)
}

/// Scanning below `k` finds nothing when no match lies in `[k, hi)`.
proof fn lemma_last_match_before_skip(h: Seq<u8>, n: Seq<u8>, k: int, hi: int)
    requires
        0 <= k <= hi,
        forall|j: int| k <= j < hi ==> !spec_bytes_at(h, n, j),
    ensures
        spec_last_match_before(h, n, hi) == spec_last_match_before(h, n, k),
    decreases hi - k,
{
    if k < hi {
        lemma_last_match_before_skip(h, n, k, hi - 1);
    }
}

/// Find the last occurrence of `n` in `h`, exactly as [`spec_last_match`]
/// describes.
#[verifier::loop_isolation(false)]
pub fn find_last_match(h: &[u8], n: &[u8]) -> (r: Option<usize>)
    requires
        n@.len() >= 1,
    ensures
        match r {
            Some(i) => spec_last_match(h@, n@) == Some(i as int) && spec_bytes_at(
                h@,
                n@,
                i as int,
            ),
            None => spec_last_match(h@, n@) is None,
        },
{
    let lh = h.len();
    let ln = n.len();
    if ln > lh {
        return None;
    }
    let hi = lh - ln + 1;
    let mut k: usize = hi;
    while k > 0
        invariant
            0 <= k <= hi,
            hi == lh - ln + 1,
            forall|j: int| k <= j < hi ==> !spec_bytes_at(h@, n@, j),
        decreases k,
    {
        if bytes_at(h, n, k - 1) {
            proof {
                lemma_last_match_before_skip(h@, n@, k as int, hi as int);
            }
            return Some(k - 1);
        }
        k -= 1;
    }
    proof {
        lemma_last_match_before_skip(h@, n@, 0, hi as int);
    }
    None
}

/// Nothing at or after `i` matches when scanning from `i` finds nothing.
proof fn lemma_first_match_from_skip(h: Seq<u8>, n: Seq<u8>, i: int, k: int)
    requires
        0 <= i <= k,
        forall|j: int| i <= j < k ==> !spec_bytes_at(h, n, j),
    ensures
        spec_first_match_from(h, n, i) == spec_first_match_from(h, n, k),
    decreases k - i,
{
    if i < k {
        lemma_first_match_from_skip(h, n, i + 1, k);
    }
}

/// Find the first occurrence of `n` in `h`, exactly as [`spec_first_match`]
/// describes.
#[verifier::loop_isolation(false)]
pub fn find_first_match(h: &[u8], n: &[u8]) -> (r: Option<usize>)
    requires
        n@.len() >= 1,
    ensures
        match r {
            Some(i) => spec_first_match(h@, n@) == Some(i as int) && spec_bytes_at(
                h@,
                n@,
                i as int,
            ),
            None => spec_first_match(h@, n@) is None,
        },
{
    let lh = h.len();
    let ln = n.len();
    if ln > lh {
        return None;
    }
    let hi = lh - ln + 1;
    let mut k: usize = 0;
    while k < hi
        invariant
            0 <= k <= hi,
            hi == lh - ln + 1,
            forall|j: int| 0 <= j < k ==> !spec_bytes_at(h@, n@, j),
        decreases hi - k,
    {
        if bytes_at(h, n, k) {
            proof {
                lemma_first_match_from_skip(h@, n@, 0, k as int);
            }
            return Some(k);
        }
        k += 1;
    }
    proof {
        lemma_first_match_from_skip(h@, n@, 0, hi as int);
    }
    None
}

/// Read the most recent status record out of an accumulated buffer, exactly
/// as [`spec_decode_status_record`] describes: the stream may hold many
/// records and partial reads, and the decoder takes the latest one.
pub fn decode_status_record(buf: &[u8]) -> (r: Option<DiscoveryNXStatus>)
    ensures
        match r {
            Some(s) => spec_decode_status_record(buf@) == Some(s@),
            None => spec_decode_status_record(buf@) is None,
        },
{
    let n = buf.len();
    let marker = status_marker();
    match find_last_match(buf, marker.as_slice()) {
        Some(i) => match decode_status(buf, i + 8) {
            Some((s, _)) => Some(s),
            None => None,
        },
        None => None,
    }
}

/// Read the first command record out of a peer's buffer, exactly as
/// [`spec_decode_command_record`] describes.
pub fn decode_command_record(buf: &[u8]) -> (r: Option<DiscoveryNXCommands>)
    ensures
        match r {
            Some(c) => spec_decode_command_record(buf@) == Some(c@),
            None => spec_decode_command_record(buf@) is None,
        },
{
    let n = buf.len();
    let marker = command_marker();
    match find_first_match(buf, marker.as_slice()) {
        Some(i) => match decode_command(buf, i + 9) {
            Some((c, _)) => Some(c),
            None => None,
        },
        None => None,
    }
}

/// Read the handshake record out of a connecting client's buffer, exactly
/// as [`spec_decode_laser_id`] describes.
pub fn decode_laser_id(buf: &[u8]) -> (r: Option<LaserType>)
    ensures
        match r {
            Some(t) => spec_decode_laser_id(buf@) == Some(t),
            None => spec_decode_laser_id(buf@) is None,
        },
{
    let n = buf.len();
    let marker = laser_id_marker();
    match find_first_match(buf, marker.as_slice()) {
        Some(i) => match decode_laser_type(buf, i + 10) {
            Some((t, _)) => Some(t),
            None => None,
        },
        None => None,
    }
}

/// A match anywhere means the last-match scan finds something at or after it.
proof fn lemma_last_match_at_least(h: Seq<u8>, n: Seq<u8>, p: int)
    requires
        n.len() >= 1,
        spec_bytes_at(h, n, p),
    ensures
        spec_last_match(h, n) matches Some(q) && q >= p,
{
    let hi = h.len() - n.len() + 1;
    assert(p < hi);
    lemma_last_match_before_some(h, n, p, hi);
}

/// Scanning down from above a known match always lands on or above it.
proof fn lemma_last_match_before_some(h: Seq<u8>, n: Seq<u8>, p: int, hi: int)
    requires
        spec_bytes_at(h, n, p),
        p < hi,
    ensures
        spec_last_match_before(h, n, hi) matches Some(q) && q >= p,
    decreases hi,
{
    if !spec_bytes_at(h, n, hi - 1) {
        lemma_last_match_before_some(h, n, p, hi - 1);
    }
}

/// Framing round trip for status records. Any buffer that ends with a
/// well-formed status record — whatever came before it — decodes to that
/// record's status, provided the appended marker is the last one in the
/// buffer (the encoded payload itself holding the marker bytes is the one
/// case this framing cannot tell apart).
pub proof fn lemma_status_frame_round_trip(prefix: Seq<u8>, v: StatusView)
    requires
        wf_status(v),
        forall|j: int| j > prefix.len() ==> !spec_bytes_at(
            prefix + spec_status_record(v),
            spec_status_marker(),
            j,
        ),
    ensures
        spec_decode_status_record(prefix + spec_status_record(v)) == Some(v),
{
    let buf = prefix + spec_status_record(v);
    let m = spec_status_marker();
    let p = prefix.len() as int;
    assert(buf.subrange(p, p + 8) =~= m);
    assert(spec_bytes_at(buf, m, p));
    lemma_last_match_at_least(buf, m, p);
    let q = spec_last_match(buf, m)->0;
    lemma_last_match_is_match(buf, m, buf.len() - m.len() + 1);
    assert(q == p);
    assert(buf.subrange(p + 8, p + 8 + enc_status(v).len()) =~= enc_status(v));
    crate::encoding::lemma_dec_status_prefix(buf, p + 8, v);
}

/// Whatever the last-match scan returns is a real match.
proof fn lemma_last_match_is_match(h: Seq<u8>, n: Seq<u8>, hi: int)
    ensures
        spec_last_match_before(h, n, hi) matches Some(q) ==> spec_bytes_at(h, n, q),
    decreases hi,
{
    if hi > 0 {
        lemma_last_match_is_match(h, n, hi - 1);
    }
}

/// Framing round trip for command records: a command framed after any
/// marker-free prefix decodes back to itself.
pub proof fn lemma_command_frame_round_trip(prefix: Seq<u8>, c: CommandView)
    requires
        wf_command(c),
        forall|j: int| 0 <= j < prefix.len() ==> !spec_bytes_at(
            prefix + spec_command_record(c),
            spec_command_marker(),
            j,
        ),
    ensures
        spec_decode_command_record(prefix + spec_command_record(c)) == Some(c),
{
    let buf = prefix + spec_command_record(c);
    let m = spec_command_marker();
    let p = prefix.len() as int;
    assert(buf.subrange(p, p + 9) =~= m);
    assert(spec_bytes_at(buf, m, p));
    lemma_first_match_from_skip(buf, m, 0, p);
    assert(buf.subrange(p + 9, p + 9 + enc_command(c).len()) =~= enc_command(c));
    crate::encoding::lemma_dec_command_prefix(buf, p + 9, c);
}

/// Framing round trip for the handshake record: a laser id framed after any
/// marker-free prefix decodes back to itself.
pub proof fn lemma_laser_id_frame_round_trip(prefix: Seq<u8>, t: LaserType)
    requires
        forall|j: int| 0 <= j < prefix.len() ==> !spec_bytes_at(
            prefix + spec_laser_id_record(t),
            spec_laser_id_marker(),
            j,
        ),
    ensures
        spec_decode_laser_id(prefix + spec_laser_id_record(t)) == Some(t),
{
    let buf = prefix + spec_laser_id_record(t);
    let m = spec_laser_id_marker();
    let p = prefix.len() as int;
    assert(buf.subrange(p, p + 10) =~= m);
    assert(spec_bytes_at(buf, m, p));
    lemma_first_match_from_skip(buf, m, 0, p);
    assert(buf[p + 10] == enc_laser_type(t)[0]);
}

} // verus!
