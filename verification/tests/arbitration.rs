//! The primary-client arbitration and the network byte dialect.

use coherent_rs::framing::frame_command;
use coherent_rs::laser::LaserType;
use coherent_rs::laser::discoverynx::DiscoveryNXCommands;
use coherent_rs::network::{check_laser_id, classify_input, classify_reply, command_allowed,
    demand_primary_client_verb, forget_me_verb, forget_primary_client_verb, reply_bytes,
    reply_to_result, step_primary, HandshakeCheck, PeerId, PeerInput, PeerVerb, ReplyOutcome,
    ServerReply, TcpError};

fn peer(n: u16) -> PeerId {
    PeerId { ip: 0x7f_00_00_01, port: 9000 + n as u16 }
}

#[test]
fn classify_reads_verbs_before_commands() {
    let forget_primary = forget_primary_client_verb();
    match classify_input(forget_primary.as_slice()) {
        Some(PeerInput::Verb(PeerVerb::ForgetPrimaryClient)) => {},
        other => panic!("wrong classification: {:?}", other),
    }
    let demand = demand_primary_client_verb();
    match classify_input(demand.as_slice()) {
        Some(PeerInput::Verb(PeerVerb::DemandPrimaryClient)) => {},
        other => panic!("wrong classification: {:?}", other),
    }
    let forget_me = forget_me_verb();
    match classify_input(forget_me.as_slice()) {
        Some(PeerInput::Verb(PeerVerb::ForgetMe)) => {},
        other => panic!("wrong classification: {:?}", other),
    }
    let record = frame_command(&DiscoveryNXCommands::Heartbeat);
    match classify_input(record.as_slice()) {
        Some(PeerInput::Command(DiscoveryNXCommands::Heartbeat)) => {},
        other => panic!("wrong classification: {:?}", other),
    }
    assert!(classify_input(b"nothing to see".as_slice()).is_none());
}

#[test]
fn primary_arbitration_scenario() {
    // Two clients connect; the first takes the slot, the second is refused
    // and cannot command; the first resigns; the second may then command.
    let c1 = peer(1);
    let c2 = peer(2);

    let (slot, reply) = step_primary(None, c1, PeerVerb::DemandPrimaryClient);
    assert_eq!(reply, ServerReply::CommandSuccessful);
    assert_eq!(slot, Some(c1));

    let (slot, reply) = step_primary(slot, c2, PeerVerb::DemandPrimaryClient);
    assert_eq!(reply, ServerReply::NotPrimaryClient);
    assert_eq!(slot, Some(c1));

    assert!(!command_allowed(slot, c2));
    assert!(command_allowed(slot, c1));

    let (slot, reply) = step_primary(slot, c2, PeerVerb::ForgetMe);
    assert_eq!(reply, ServerReply::CommandFailed);
    assert_eq!(slot, Some(c1));

    let (slot, reply) = step_primary(slot, c1, PeerVerb::ForgetMe);
    assert_eq!(reply, ServerReply::CommandSuccessful);
    assert_eq!(slot, None);

    assert!(command_allowed(slot, c2));
}

#[test]
fn force_forget_rescues_the_slot() {
    // With one client primary, any peer's forced forget clears the slot.
    let c1 = peer(1);
    let c2 = peer(2);

    let (slot, _) = step_primary(None, c1, PeerVerb::DemandPrimaryClient);
    assert_eq!(slot, Some(c1));

    let (slot, reply) = step_primary(slot, c2, PeerVerb::ForgetPrimaryClient);
    assert_eq!(reply, ServerReply::CommandSuccessful);
    assert_eq!(slot, None);

    assert!(command_allowed(slot, c2));
}

#[test]
fn commands_without_a_primary_are_allowed() {
    assert!(command_allowed(None, peer(5)));
}

#[test]
fn reply_bytes_are_the_literal_strings() {
    assert_eq!(reply_bytes(ServerReply::CommandSuccessful), b"COMMAND SUCCESSFUL\n".to_vec());
    assert_eq!(reply_bytes(ServerReply::CommandFailed), b"COMMAND FAILED\n".to_vec());
    assert_eq!(reply_bytes(ServerReply::NotPrimaryClient), b"NOT PRIMARY CLIENT\n".to_vec());
    assert_eq!(demand_primary_client_verb(), b"DEMAND PRIMARY CLIENT\n".to_vec());
    assert_eq!(forget_primary_client_verb(), b"FORGET PRIMARY CLIENT\n".to_vec());
    assert_eq!(forget_me_verb(), b"FORGET ME\n".to_vec());
}

#[test]
fn client_reads_replies_by_prefix() {
    assert_eq!(
        classify_reply(b"COMMAND SUCCESSFUL\n".as_slice()),
        Some(ReplyOutcome::Success)
    );
    assert_eq!(classify_reply(b"COMMAND FAILED\n".as_slice()), Some(ReplyOutcome::Failed));
    assert_eq!(
        classify_reply(b"NOT PRIMARY CLIENT\nmore".as_slice()),
        Some(ReplyOutcome::NotPrimary)
    );
    // A partial reply asks the caller to keep reading.
    assert_eq!(classify_reply(b"COMMAND SUCC".as_slice()), None);

    assert!(reply_to_result(ReplyOutcome::Success).is_ok());
    assert!(matches!(
        reply_to_result(ReplyOutcome::Failed),
        Err(TcpError::CommandError)
    ));
    assert!(matches!(
        reply_to_result(ReplyOutcome::NotPrimary),
        Err(TcpError::NotPrimaryClient)
    ));
}

#[test]
fn handshake_rejects_a_model_mismatch() {
    // A server running the in-memory laser identifies as such; a client
    // declared for the hardware model refuses the connection.
    let record = coherent_rs::framing::frame_laser_id(LaserType::DebugLaser);
    assert_eq!(
        check_laser_id(record.as_slice(), LaserType::DebugLaser),
        HandshakeCheck::Matched
    );
    assert_eq!(
        check_laser_id(record.as_slice(), LaserType::DiscoveryNX),
        HandshakeCheck::Mismatched(LaserType::DebugLaser)
    );
    assert_eq!(
        check_laser_id(b"partial".as_slice(), LaserType::DebugLaser),
        HandshakeCheck::Incomplete
    );
}
