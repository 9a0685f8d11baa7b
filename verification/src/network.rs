//! The network dialect: peer identity, the literal verbs and replies, how a
//! peer's bytes are classified, the primary-client arbitration rules, and
//! the client-side handshake and reply disciplines.
//!
//! The TCP shells around this module only move bytes: every decision — who
//! may command, what to answer, what a buffer means — is taken here.

use vstd::prelude::*;
use vstd::utf8::encode_utf8;
use crate::CoherentError;
use crate::laser::LaserType;
use crate::laser::discoverynx::{DiscoveryNXCommands, CommandView};
use crate::framing::{spec_bytes_at, spec_decode_command_record, spec_decode_laser_id,
    starts_with_bytes, decode_command_record, decode_laser_id};

verus! {

/// Errors during communication with the laser over the network.
#[derive(Debug, PartialEq)]
pub enum TcpError {
    MultipleReferencesToLaser,
    MutexPoisoned,
    CoherentError(CoherentError),
    IoError(String),
    SerializationEncodeError(String),
    SerializationDecodeError(String),
    CommandError,
    NoLaserStatus,
    NotPrimaryClient,
}

/// A connected peer, identified by its remote address. TCP gives distinct
/// peers distinct address/port pairs for the lifetime of the connection.
#[derive(Debug, PartialEq, Eq, Structural, Clone, Copy)]
pub struct PeerId {
    /// The remote IP address, as an integer (IPv4 addresses use the low 32
    /// bits).
    pub ip: u128,
    /// The remote TCP port.
    pub port: u16,
}

/// A reply the server writes back to a peer.
#[derive(Debug, PartialEq, Eq, Structural, Clone, Copy)]
pub enum ServerReply {
    CommandSuccessful,
    CommandFailed,
    NotPrimaryClient,
}

pub open spec fn spec_command_successful_reply() -> Seq<u8> {
    encode_utf8("COMMAND SUCCESSFUL\n"@)
}

pub open spec fn spec_command_failed_reply() -> Seq<u8> {
    encode_utf8("COMMAND FAILED\n"@)
}

pub open spec fn spec_not_primary_client_reply() -> Seq<u8> {
    encode_utf8("NOT PRIMARY CLIENT\n"@)
}

pub open spec fn spec_demand_primary_client_verb() -> Seq<u8> {
    encode_utf8("DEMAND PRIMARY CLIENT\n"@)
}

pub open spec fn spec_forget_primary_client_verb() -> Seq<u8> {
    encode_utf8("FORGET PRIMARY CLIENT\n"@)
}

pub open spec fn spec_forget_me_verb() -> Seq<u8> {
    encode_utf8("FORGET ME\n"@)
}

/// The bytes of one reply.
pub open spec fn spec_reply_bytes(r: ServerReply) -> Seq<u8> {
    match r {
        ServerReply::CommandSuccessful => spec_command_successful_reply(),
        ServerReply::CommandFailed => spec_command_failed_reply(),
        ServerReply::NotPrimaryClient => spec_not_primary_client_reply(),
    }
}

/// Render a reply as the bytes the server writes.
pub fn reply_bytes(r: ServerReply) -> (v: Vec<u8>)
    ensures
        v@ == spec_reply_bytes(r),
{
    match r {
        ServerReply::CommandSuccessful => "COMMAND SUCCESSFUL\n".as_bytes_vec(),
        ServerReply::CommandFailed => "COMMAND FAILED\n".as_bytes_vec(),
        ServerReply::NotPrimaryClient => "NOT PRIMARY CLIENT\n".as_bytes_vec(),
    }
}

/// The bytes a client writes to demand the primary-client slot.
pub fn demand_primary_client_verb() -> (v: Vec<u8>)
    ensures
        v@ == spec_demand_primary_client_verb(),
{
    "DEMAND PRIMARY CLIENT\n".as_bytes_vec()
}

/// The bytes a client writes to clear the primary-client slot by force.
pub fn forget_primary_client_verb() -> (v: Vec<u8>)
    ensures
        v@ == spec_forget_primary_client_verb(),
{
    "FORGET PRIMARY CLIENT\n".as_bytes_vec()
}

/// The bytes a client writes to give the primary-client slot up.
pub fn forget_me_verb() -> (v: Vec<u8>)
    ensures
        v@ == spec_forget_me_verb(),
{
    "FORGET ME\n".as_bytes_vec()
}

/// A control verb a peer may send.
#[derive(Debug, PartialEq, Eq, Structural, Clone, Copy)]
pub enum PeerVerb {
    ForgetPrimaryClient,
    DemandPrimaryClient,
    ForgetMe,
}

/// What a peer's accumulated bytes ask for.
#[derive(Debug)]
pub enum PeerInput {
    Verb(PeerVerb),
    Command(DiscoveryNXCommands),
}

/// The mathematical shape of a peer's request.
pub enum PeerInputView {
    Verb(PeerVerb),
    Command(CommandView),
}

impl View for PeerInput {
    type V = PeerInputView;

    open spec fn view(&self) -> PeerInputView {
        match self {
            PeerInput::Verb(v) => PeerInputView::Verb(*v),
            PeerInput::Command(c) => PeerInputView::Command(c@),
        }
    }
}

/// How a peer's bytes are read, in priority order: the three literal verbs
/// by prefix, then one command record.
pub open spec fn spec_classify_input(buf: Seq<u8>) -> Option<PeerInputView> {
    if spec_bytes_at(buf, spec_forget_primary_client_verb(), 0) {
        Some(PeerInputView::Verb(PeerVerb::ForgetPrimaryClient))
    } else if spec_bytes_at(buf, spec_demand_primary_client_verb(), 0) {
        Some(PeerInputView::Verb(PeerVerb::DemandPrimaryClient))
    } else if spec_bytes_at(buf, spec_forget_me_verb(), 0) {
        Some(PeerInputView::Verb(PeerVerb::ForgetMe))
    } else {
        match spec_decode_command_record(buf) {
            Some(c) => Some(PeerInputView::Command(c)),
            None => None,
        }
    }
}

/// Classify a peer's bytes, exactly as [`spec_classify_input`] describes.
pub fn classify_input(buf: &[u8]) -> (r: Option<PeerInput>)
    ensures
        match r {
            Some(input) => spec_classify_input(buf@) == Some(input@),
            None => spec_classify_input(buf@) is None,
        },
{
    let forget_primary = forget_primary_client_verb();
    if starts_with_bytes(buf, forget_primary.as_slice()) {
        return Some(PeerInput::Verb(PeerVerb::ForgetPrimaryClient));
    }
    let demand = demand_primary_client_verb();
    if starts_with_bytes(buf, demand.as_slice()) {
        return Some(PeerInput::Verb(PeerVerb::DemandPrimaryClient));
    }
    let forget_me = forget_me_verb();
    if starts_with_bytes(buf, forget_me.as_slice()) {
        return Some(PeerInput::Verb(PeerVerb::ForgetMe));
    }
    match decode_command_record(buf) {
        Some(c) => Some(PeerInput::Command(c)),
        None => None,
    }
}

/// The primary-client state machine. From a slot state and a verb issued by
/// `peer`, the next slot state and the reply:
/// `FORGET PRIMARY CLIENT` always clears the slot (the operator's rescue);
/// `DEMAND PRIMARY CLIENT` binds the peer only to an empty slot;
/// `FORGET ME` clears the slot only when the peer holds it.
pub open spec fn spec_step_primary(
    primary: Option<PeerId>,
    peer: PeerId,
    verb: PeerVerb,
) -> (Option<PeerId>, ServerReply) {
    match verb {
        PeerVerb::ForgetPrimaryClient => (None, ServerReply::CommandSuccessful),
        PeerVerb::DemandPrimaryClient => match primary {
            None => (Some(peer), ServerReply::CommandSuccessful),
            Some(p) => (Some(p), ServerReply::NotPrimaryClient),
        },
        PeerVerb::ForgetMe => if primary == Some(peer) {
            (None, ServerReply::CommandSuccessful)
        } else {
            (primary, ServerReply::CommandFailed)
        },
    }
}

/// Apply one verb to the primary-client slot, exactly as
/// [`spec_step_primary`] describes.
pub fn step_primary(primary: Option<PeerId>, peer: PeerId, verb: PeerVerb) -> (r: (
    Option<PeerId>,
    ServerReply,
))
    ensures
        r == spec_step_primary(primary, peer, verb),
{
    match verb {
        PeerVerb::ForgetPrimaryClient => (None, ServerReply::CommandSuccessful),
        PeerVerb::DemandPrimaryClient => match primary {
            None => (Some(peer), ServerReply::CommandSuccessful),
            Some(p) => (Some(p), ServerReply::NotPrimaryClient),
        },
        PeerVerb::ForgetMe => {
            let held = match primary {
                Some(p) => p.ip == peer.ip && p.port == peer.port,
                None => false,
            };
            if held {
                (None, ServerReply::CommandSuccessful)
            } else {
                (primary, ServerReply::CommandFailed)
            }
        },
    }
}

/// Whether a command from `peer` may reach the laser: only when no primary
/// client is bound, or `peer` is the primary client.
pub open spec fn spec_command_allowed(primary: Option<PeerId>, peer: PeerId) -> bool {
    primary is None || primary == Some(peer)
}

/// Gate a command, exactly as [`spec_command_allowed`] describes. A refused
/// command is answered `NOT PRIMARY CLIENT` and never reaches the session.
pub fn command_allowed(primary: Option<PeerId>, peer: PeerId) -> (r: bool)
    ensures
        r == spec_command_allowed(primary, peer),
{
    match primary {
        None => true,
        Some(p) => p.ip == peer.ip && p.port == peer.port,
    }
}

/// The primary-client arbitration law. The slot honors exactly these
/// transitions: an empty slot is taken by a demand; a held slot refuses
/// demands from every peer and stays put; the holder can give the slot up;
/// a non-holder's resignation changes nothing; the forced forget always
/// clears the slot; and a command from a non-primary peer is refused while
/// a bound slot stays bound.
pub proof fn lemma_primary_arbitration(primary: Option<PeerId>, peer: PeerId)
    ensures
        spec_step_primary(None, peer, PeerVerb::DemandPrimaryClient) == (
            Some(peer),
            ServerReply::CommandSuccessful,
        ),
        forall|p: PeerId| #![auto] spec_step_primary(Some(p), peer, PeerVerb::DemandPrimaryClient)
            == (Some(p), ServerReply::NotPrimaryClient),
        spec_step_primary(Some(peer), peer, PeerVerb::ForgetMe) == (
            None::<PeerId>,
            ServerReply::CommandSuccessful,
        ),
        forall|p: PeerId| #![auto] p != peer ==> spec_step_primary(
            Some(p),
            peer,
            PeerVerb::ForgetMe,
        ) == (Some(p), ServerReply::CommandFailed),
        spec_step_primary(primary, peer, PeerVerb::ForgetPrimaryClient) == (
            None::<PeerId>,
            ServerReply::CommandSuccessful,
        ),
        forall|p: PeerId| #![auto] p != peer ==> !spec_command_allowed(Some(p), peer),
        spec_command_allowed(Some(peer), peer),
        spec_command_allowed(None, peer),
{
}

/// What a client makes of the server's answer to a command or verb.
#[derive(Debug, PartialEq, Eq, Structural, Clone, Copy)]
pub enum ReplyOutcome {
    Success,
    Failed,
    NotPrimary,
}

/// How a client reads an accumulated reply buffer, in the order the
/// call-and-wait discipline checks prefixes.
pub open spec fn spec_classify_reply(buf: Seq<u8>) -> Option<ReplyOutcome> {
    if spec_bytes_at(buf, spec_command_successful_reply(), 0) {
        Some(ReplyOutcome::Success)
    } else if spec_bytes_at(buf, spec_command_failed_reply(), 0) {
        Some(ReplyOutcome::Failed)
    } else if spec_bytes_at(buf, spec_not_primary_client_reply(), 0) {
        Some(ReplyOutcome::NotPrimary)
    } else {
        None
    }
}

/// Classify a reply buffer, exactly as [`spec_classify_reply`] describes;
/// `None` asks the caller to keep reading.
pub fn classify_reply(buf: &[u8]) -> (r: Option<ReplyOutcome>)
    ensures
        r == spec_classify_reply(buf@),
{
    let success = "COMMAND SUCCESSFUL\n".as_bytes_vec();
    if starts_with_bytes(buf, success.as_slice()) {
        return Some(ReplyOutcome::Success);
    }
    let failed = "COMMAND FAILED\n".as_bytes_vec();
    if starts_with_bytes(buf, failed.as_slice()) {
        return Some(ReplyOutcome::Failed);
    }
    let not_primary = "NOT PRIMARY CLIENT\n".as_bytes_vec();
    if starts_with_bytes(buf, not_primary.as_slice()) {
        return Some(ReplyOutcome::NotPrimary);
    }
    None
}

/// Turn a classified reply into the client call's result: `Success` is
/// `Ok`, `Failed` is `CommandError`, `NotPrimary` is `NotPrimaryClient`.
pub fn reply_to_result(outcome: ReplyOutcome) -> (r: Result<(), TcpError>)
    ensures
        match outcome {
            ReplyOutcome::Success => r is Ok,
            ReplyOutcome::Failed => r == Err::<(), _>(TcpError::CommandError),
            ReplyOutcome::NotPrimary => r == Err::<(), _>(TcpError::NotPrimaryClient),
        },
{
    match outcome {
        ReplyOutcome::Success => Ok(()),
        ReplyOutcome::Failed => Err(TcpError::CommandError),
        ReplyOutcome::NotPrimary => Err(TcpError::NotPrimaryClient),
    }
}

/// What the connect handshake concludes from the accumulated bytes.
#[derive(Debug, PartialEq, Eq, Structural, Clone, Copy)]
pub enum HandshakeCheck {
    /// The server's laser model matches the client's expectation.
    Matched,
    /// The server identified a different model: the connection is refused
    /// with `UnrecognizedDevice`.
    Mismatched(LaserType),
    /// No complete handshake record yet: keep reading.
    Incomplete,
}

/// Check the server's `Laser ID: ` record against the model this client
/// expects: a decoded model matches or is refused; an undecodable buffer
/// asks for more bytes.
pub fn check_laser_id(buf: &[u8], expected: LaserType) -> (r: HandshakeCheck)
    ensures
        match spec_decode_laser_id(buf@) {
            Some(t) => if t == expected {
                r == HandshakeCheck::Matched
            } else {
                r == HandshakeCheck::Mismatched(t)
            },
            None => r == HandshakeCheck::Incomplete,
        },
{
    match decode_laser_id(buf) {
        Some(t) => {
            if t == expected {
                HandshakeCheck::Matched
            } else {
                HandshakeCheck::Mismatched(t)
            }
        },
        None => HandshakeCheck::Incomplete,
    }
}

} // verus!
