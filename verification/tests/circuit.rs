use tor_circuits::channel::ChannelDecision;
use tor_circuits::circuit::{
    BuildFailure, CircuitAction, CircuitHandle, CircuitState, Handshake, Progress, StepOutcome,
    TorCircuitManager,
};
use tor_circuits::directory::{
    IpAddress, NetParameters, NetworkDirectory, RelayAddress, RelayDescriptor,
};
use tor_circuits::error::{CircuitError, ErrorKind};
use tor_circuits::flags::{RelayFlag, RelayFlags};
use tor_circuits::identity::RelayIdentity;
use tor_circuits::params::build_circuit_params;

const FP_A: &str = "FFA72BD683BC2FCF988356E6BEC1E490F313FB07";
const FP_B: &str = "00194C4FECEB999CF8C7EF1D202AE9BF24D17545";
const FP_C: &str = "62F4994C6F3A5B3E590AEECE522591696C8DDEE2";
const FP_Z: &str = "8929AF5554BE622DE3FE34812C03D65FE7D5D0F1";
const CONNECT: CircuitAction = CircuitAction::Connect { timeout_secs: 10 };
const LAUNCH: CircuitAction =
    CircuitAction::ObtainChannel(ChannelDecision::Launch { connect_timeout_secs: 10 });

fn relay(fingerprint: &str, flags: RelayFlags, key: u8) -> RelayDescriptor {
    RelayDescriptor {
        identity: RelayIdentity::from_fingerprint(fingerprint).unwrap(),
        addrs: vec![RelayAddress { ip: IpAddress::V4([10, 0, 0, key]), port: 443 }],
        flags,
        ntor_onion_key: [key; 32],
    }
}

fn directory() -> NetworkDirectory {
    let mut dir = NetworkDirectory::new(NetParameters::default());
    dir.add_relay(relay(FP_A, RelayFlags::empty().with(RelayFlag::Guard).with(RelayFlag::Fast), 1));
    dir.add_relay(relay(FP_B, RelayFlags::empty().with(RelayFlag::Exit).with(RelayFlag::Fast), 2));
    dir.add_relay(relay(FP_C, RelayFlags::empty().with(RelayFlag::Exit), 3));
    dir
}

fn manager() -> TorCircuitManager {
    let mut manager = TorCircuitManager::new();
    manager.init(directory());
    manager
}

fn hops(handle: &CircuitHandle) -> Vec<String> {
    (0..handle.hop_count()).map(|i| handle.hop(i).unwrap().to_hex()).collect()
}

fn built(progress: Result<Progress, BuildFailure>) -> CircuitHandle {
    match progress {
        Ok(Progress::Built(handle)) => handle,
        other => panic!("no circuit: {:?}", other),
    }
}

fn next(progress: Result<Progress, BuildFailure>) -> CircuitAction {
    match progress {
        Ok(Progress::Next(action)) => action,
        other => panic!("no action: {:?}", other),
    }
}

/// Runs a first hop through with every step succeeding.
fn create_ok(manager: &mut TorCircuitManager, fingerprint: &str) -> CircuitHandle {
    assert_eq!(manager.create("10.0.0.1", 443, fingerprint), Ok(CONNECT));
    assert!(matches!(next(manager.advance(StepOutcome::Done)), CircuitAction::ObtainChannel(_)));
    assert_eq!(next(manager.advance(StepOutcome::Done)), CircuitAction::OpenCircuit);
    assert_eq!(
        next(manager.advance(StepOutcome::Done)),
        CircuitAction::CreateFirstHop(Handshake::Ntor)
    );
    built(manager.advance(StepOutcome::Done))
}

fn extend_ok(manager: &mut TorCircuitManager, fingerprint: &str) -> CircuitHandle {
    assert_eq!(manager.extend("10.0.0.2", 443, fingerprint), Ok(CONNECT));
    assert_eq!(next(manager.advance(StepOutcome::Done)), CircuitAction::ExtendCircuit);
    built(manager.advance(StepOutcome::Done))
}

#[test]
fn new_manager_has_no_circuit() {
    let manager = TorCircuitManager::new();
    assert_eq!(manager.state(), CircuitState::NoCircuit);
    assert_eq!(manager.get_circ().unwrap_err(), CircuitError::NoCircuit);
    assert!(manager.pending_target().is_none());
    assert!(manager.pending_params().is_none());
}

#[test]
fn create_without_directory_fails() {
    let mut manager = TorCircuitManager::new();
    assert_eq!(manager.create("10.0.0.1", 443, FP_A), Err(CircuitError::NoDirectoryAvailable));
    assert_eq!(manager.create("10.0.0.1", 443, "xyz"), Err(CircuitError::NoDirectoryAvailable));
    assert_eq!(manager.state(), CircuitState::NoCircuit);
}

#[test]
fn create_with_bad_fingerprint_fails() {
    let mut manager = manager();
    assert_eq!(manager.create("10.0.0.1", 443, "FFA7"), Err(CircuitError::InvalidFingerprint));
    assert_eq!(
        manager.create("10.0.0.1", 443, "ZZA72BD683BC2FCF988356E6BEC1E490F313FB07"),
        Err(CircuitError::InvalidFingerprint)
    );
    assert_eq!(manager.state(), CircuitState::NoCircuit);
    assert_eq!(CircuitError::InvalidFingerprint.kind(), ErrorKind::Configuration);
}

#[test]
fn create_of_unknown_relay_fails() {
    let mut manager = manager();
    assert_eq!(manager.create("10.0.0.1", 443, FP_Z), Err(CircuitError::RelayNotFound));
    assert_eq!(manager.state(), CircuitState::NoCircuit);
    assert!(manager.pending_target().is_none());
}

#[test]
fn resolved_target_pairs_address_and_keys() {
    let manager = manager();
    let target = manager
        .circ_target_from_relay("88.198.35.49", 9000, "00194c4f eceb999c f8c7ef1d 202ae9bf 24d17545")
        .unwrap();
    assert_eq!(target.relay_ip, "88.198.35.49");
    assert_eq!(target.relay_port, 9000);
    assert_eq!(target.identity.to_hex(), FP_B.to_lowercase());
    assert_eq!(target.ntor_onion_key, [2u8; 32]);
    assert_eq!(
        manager.circ_target_from_relay("88.198.35.49", 9000, FP_Z).unwrap_err(),
        CircuitError::RelayNotFound
    );
}

#[test]
fn create_goes_through_link_circuit_and_handshake() {
    let mut manager = manager();
    let action = manager.create("10.0.0.1", 443, FP_A).unwrap();
    assert_eq!(action, CONNECT);
    assert_eq!(manager.state(), CircuitState::FirstHopPending);
    assert_eq!(manager.pending_target().unwrap().identity.to_hex(), FP_A.to_lowercase());
    assert_eq!(manager.pending_target().unwrap().relay_ip, "10.0.0.1");
    assert_eq!(manager.pending_params().unwrap().ccontrol, build_circuit_params().unwrap());
    assert!(manager.pending_params().unwrap().extend_by_ed25519_id);
    assert_eq!(manager.get_circ().unwrap_err(), CircuitError::NoCircuit);

    assert_eq!(next(manager.advance(StepOutcome::Done)), LAUNCH);
    assert_eq!(manager.chan_mgr().get_chanmgr().len(), 0);
    assert_eq!(next(manager.advance(StepOutcome::Done)), CircuitAction::OpenCircuit);
    assert!(manager.chan_mgr().get_chanmgr().is_live(&RelayIdentity::from_fingerprint(FP_A).unwrap()));
    assert_eq!(
        next(manager.advance(StepOutcome::Done)),
        CircuitAction::CreateFirstHop(Handshake::Ntor)
    );
    assert_eq!(manager.state(), CircuitState::FirstHopPending);
    let handle = built(manager.advance(StepOutcome::Done));
    assert_eq!(hops(&handle), vec![FP_A.to_lowercase()]);
    assert_eq!(handle.hop_count(), 1);
    assert_eq!(manager.state(), CircuitState::Ready);
    assert_eq!(hops(&manager.get_circ().unwrap()), vec![FP_A.to_lowercase()]);
}

#[test]
fn second_circuit_to_a_relay_reuses_its_link() {
    let mut manager = manager();
    create_ok(&mut manager, FP_A);
    assert_eq!(manager.create("10.0.0.1", 443, FP_A), Ok(CONNECT));
    assert_eq!(
        next(manager.advance(StepOutcome::Done)),
        CircuitAction::ObtainChannel(ChannelDecision::Reuse)
    );
    manager.advance(StepOutcome::Done).unwrap();
    assert_eq!(manager.chan_mgr().get_chanmgr().len(), 1);
    manager.advance(StepOutcome::Done).unwrap();
    manager.advance(StepOutcome::Done).unwrap();
    assert_eq!(manager.create("10.0.0.2", 443, FP_B), Ok(CONNECT));
    assert_eq!(next(manager.advance(StepOutcome::Done)), LAUNCH);
}

#[test]
fn extend_before_any_build_fails_and_changes_nothing() {
    let mut manager = manager();
    assert_eq!(manager.extend("10.0.0.2", 443, FP_B), Err(CircuitError::NoCircuitToExtend));
    assert_eq!(manager.state(), CircuitState::NoCircuit);
    assert_eq!(manager.get_circ().unwrap_err(), CircuitError::NoCircuit);
    assert!(manager.pending_target().is_none());
    let mut bare = TorCircuitManager::new();
    assert_eq!(bare.extend("10.0.0.2", 443, "junk"), Err(CircuitError::NoCircuitToExtend));
    assert_eq!(CircuitError::NoCircuitToExtend.kind(), ErrorKind::Protocol);
}

#[test]
fn extend_while_first_hop_is_pending_has_no_circuit_to_extend() {
    let mut manager = manager();
    manager.create("10.0.0.1", 443, FP_A).unwrap();
    assert_eq!(manager.extend("10.0.0.2", 443, FP_B), Err(CircuitError::NoCircuitToExtend));
    assert_eq!(manager.state(), CircuitState::FirstHopPending);
    assert_eq!(manager.pending_target().unwrap().identity.to_hex(), FP_A.to_lowercase());
}

#[test]
fn create_then_extend_gives_two_hops_in_order() {
    let mut manager = manager();
    create_ok(&mut manager, FP_A);
    let handle = extend_ok(&mut manager, FP_B);
    assert_eq!(hops(&handle), vec![FP_A.to_lowercase(), FP_B.to_lowercase()]);
    assert_eq!(hops(&manager.get_circ().unwrap()), hops(&handle));

    assert_eq!(manager.extend("10.0.0.9", 443, FP_Z), Err(CircuitError::RelayNotFound));
    assert_eq!(
        hops(&manager.get_circ().unwrap()),
        vec![FP_A.to_lowercase(), FP_B.to_lowercase()]
    );
    assert_eq!(manager.state(), CircuitState::Ready);
}

#[test]
fn hop_count_grows_by_one_with_each_extension() {
    let mut manager = manager();
    assert_eq!(create_ok(&mut manager, FP_A).hop_count(), 1);
    assert_eq!(extend_ok(&mut manager, FP_B).hop_count(), 2);
    assert_eq!(extend_ok(&mut manager, FP_C).hop_count(), 3);
    assert_eq!(
        hops(&manager.get_circ().unwrap()),
        vec![FP_A.to_lowercase(), FP_B.to_lowercase(), FP_C.to_lowercase()]
    );
}

#[test]
fn failed_extension_keeps_the_hops() {
    let mut manager = manager();
    create_ok(&mut manager, FP_A);
    extend_ok(&mut manager, FP_B);
    manager.extend("10.0.0.3", 443, FP_C).unwrap();
    assert_eq!(manager.state(), CircuitState::ExtendPending);
    manager.advance(StepOutcome::Done).unwrap();
    assert_eq!(manager.state(), CircuitState::ExtendPending);
    let failure = manager.advance(StepOutcome::Failed).unwrap_err();
    assert_eq!(failure.error, CircuitError::HandshakeFailed);
    assert_eq!(failure.target.unwrap().identity.to_hex(), FP_C.to_lowercase());
    assert_eq!(manager.state(), CircuitState::Ready);
    assert_eq!(manager.get_circ().unwrap().hop_count(), 2);
    assert_eq!(
        hops(&manager.get_circ().unwrap()),
        vec![FP_A.to_lowercase(), FP_B.to_lowercase()]
    );
    assert_eq!(extend_ok(&mut manager, FP_C).hop_count(), 3);
}

#[test]
fn extension_that_times_out_is_a_failed_handshake() {
    let mut manager = manager();
    create_ok(&mut manager, FP_A);
    manager.extend("10.0.0.2", 443, FP_B).unwrap();
    manager.advance(StepOutcome::Done).unwrap();
    let failure = manager.advance(StepOutcome::TimedOut).unwrap_err();
    assert_eq!(failure.error, CircuitError::HandshakeFailed);
    assert_eq!(manager.get_circ().unwrap().hop_count(), 1);
}

#[test]
fn failed_link_ends_the_build() {
    let mut manager = manager();
    manager.create("10.0.0.1", 443, FP_A).unwrap();
    manager.advance(StepOutcome::Done).unwrap();
    let failure = manager.advance(StepOutcome::TimedOut).unwrap_err();
    assert_eq!(failure.error, CircuitError::ChannelLaunchFailed);
    assert_eq!(failure.target.unwrap().identity.to_hex(), FP_A.to_lowercase());
    assert_eq!(manager.state(), CircuitState::NoCircuit);
    assert_eq!(manager.chan_mgr().get_chanmgr().len(), 0);
    manager.create("10.0.0.1", 443, FP_A).unwrap();
    manager.advance(StepOutcome::Done).unwrap();
    assert_eq!(
        manager.advance(StepOutcome::Failed).unwrap_err().error,
        CircuitError::ChannelLaunchFailed
    );
}

#[test]
fn failed_connection_names_the_address() {
    let mut manager = manager();
    manager.create("203.0.113.7", 9001, FP_A).unwrap();
    let failure = manager.advance(StepOutcome::TimedOut).unwrap_err();
    assert_eq!(failure.error, CircuitError::ConnectTimeout);
    let target = failure.target.unwrap();
    assert_eq!(target.relay_ip, "203.0.113.7");
    assert_eq!(target.relay_port, 9001);
    assert_eq!(manager.state(), CircuitState::NoCircuit);

    manager.create("203.0.113.7", 9001, FP_A).unwrap();
    assert_eq!(manager.advance(StepOutcome::Failed).unwrap_err().error, CircuitError::ConnectFailed);
    assert_eq!(CircuitError::ConnectTimeout.kind(), ErrorKind::Connectivity);
    assert_eq!(CircuitError::ConnectFailed.kind(), ErrorKind::Connectivity);
}

#[test]
fn malformed_address_is_a_configuration_error() {
    let mut manager = manager();
    create_ok(&mut manager, FP_A);
    manager.extend("not an address", 443, FP_B).unwrap();
    let failure = manager.advance(StepOutcome::BadAddress).unwrap_err();
    assert_eq!(failure.error, CircuitError::InvalidAddress);
    assert_eq!(failure.target.unwrap().relay_ip, "not an address");
    assert_eq!(CircuitError::InvalidAddress.kind(), ErrorKind::Configuration);
    assert_eq!(manager.get_circ().unwrap().hop_count(), 1);
    assert_eq!(manager.state(), CircuitState::Ready);
}

#[test]
fn failed_circuit_launch_ends_the_build() {
    let mut manager = manager();
    manager.create("10.0.0.1", 443, FP_A).unwrap();
    manager.advance(StepOutcome::Done).unwrap();
    manager.advance(StepOutcome::Done).unwrap();
    let failure = manager.advance(StepOutcome::Failed).unwrap_err();
    assert_eq!(failure.error, CircuitError::CircuitLaunchFailed);
    assert_eq!(manager.state(), CircuitState::NoCircuit);
    assert_eq!(manager.chan_mgr().get_chanmgr().len(), 1);
}

#[test]
fn failed_first_handshake_names_the_relay() {
    let mut manager = manager();
    manager.create("10.0.0.1", 443, FP_A).unwrap();
    manager.advance(StepOutcome::Done).unwrap();
    manager.advance(StepOutcome::Done).unwrap();
    manager.advance(StepOutcome::Done).unwrap();
    let failure = manager.advance(StepOutcome::Failed).unwrap_err();
    assert_eq!(failure.error, CircuitError::HandshakeFailed);
    assert_eq!(failure.target.unwrap().identity.to_hex(), FP_A.to_lowercase());
    assert_eq!(manager.get_circ().unwrap_err(), CircuitError::NoCircuit);
    assert_eq!(CircuitError::HandshakeFailed.kind(), ErrorKind::Protocol);
}

#[test]
fn failed_rebuild_keeps_the_old_circuit() {
    let mut manager = manager();
    create_ok(&mut manager, FP_A);
    extend_ok(&mut manager, FP_B);
    manager.create("10.0.0.3", 443, FP_C).unwrap();
    manager.advance(StepOutcome::Done).unwrap();
    manager.advance(StepOutcome::Done).unwrap();
    manager.advance(StepOutcome::Done).unwrap();
    manager.advance(StepOutcome::Failed).unwrap_err();
    assert_eq!(
        hops(&manager.get_circ().unwrap()),
        vec![FP_A.to_lowercase(), FP_B.to_lowercase()]
    );
}

#[test]
fn new_first_hop_replaces_the_circuit() {
    let mut manager = manager();
    create_ok(&mut manager, FP_A);
    extend_ok(&mut manager, FP_B);
    let handle = create_ok(&mut manager, FP_C);
    assert_eq!(hops(&handle), vec![FP_C.to_lowercase()]);
    assert_eq!(hops(&manager.get_circ().unwrap()), vec![FP_C.to_lowercase()]);
}

#[test]
fn one_hop_circuit_is_not_kept() {
    let mut manager = manager();
    create_ok(&mut manager, FP_A);
    manager.create_one_hop("10.0.0.2", 443, FP_B).unwrap();
    assert_eq!(next(manager.advance(StepOutcome::Done)), LAUNCH);
    assert_eq!(next(manager.advance(StepOutcome::Done)), CircuitAction::OpenCircuit);
    assert_eq!(
        next(manager.advance(StepOutcome::Done)),
        CircuitAction::CreateFirstHop(Handshake::Fast)
    );
    let handle = built(manager.advance(StepOutcome::Done));
    assert_eq!(hops(&handle), vec![FP_B.to_lowercase()]);
    assert_eq!(hops(&manager.get_circ().unwrap()), vec![FP_A.to_lowercase()]);
}

#[test]
fn a_hop_is_not_begun_while_another_is_pending() {
    let mut manager = manager();
    create_ok(&mut manager, FP_A);
    manager.extend("10.0.0.2", 443, FP_B).unwrap();
    assert_eq!(manager.extend("10.0.0.3", 443, FP_C), Err(CircuitError::BuildInProgress));
    assert_eq!(manager.create("10.0.0.3", 443, FP_C), Err(CircuitError::BuildInProgress));
    assert_eq!(manager.create_one_hop("10.0.0.3", 443, FP_C), Err(CircuitError::BuildInProgress));
    assert_eq!(manager.pending_target().unwrap().identity.to_hex(), FP_B.to_lowercase());
    manager.advance(StepOutcome::Done).unwrap();
    assert_eq!(built(manager.advance(StepOutcome::Done)).hop_count(), 2);
}

#[test]
fn outcome_without_pending_hop_is_unexpected() {
    let mut manager = manager();
    let failure = manager.advance(StepOutcome::Done).unwrap_err();
    assert_eq!(failure.error, CircuitError::UnexpectedEvent);
    assert!(failure.target.is_none());
    create_ok(&mut manager, FP_A);
    assert_eq!(
        manager.advance(StepOutcome::Failed).unwrap_err().error,
        CircuitError::UnexpectedEvent
    );
    assert_eq!(manager.get_circ().unwrap().hop_count(), 1);
}

#[test]
fn handle_gives_its_hops_by_index() {
    let mut manager = manager();
    create_ok(&mut manager, FP_A);
    let handle = extend_ok(&mut manager, FP_B);
    assert_eq!(handle.hop(0).unwrap().to_hex(), FP_A.to_lowercase());
    assert_eq!(handle.hop(1).unwrap().to_hex(), FP_B.to_lowercase());
    assert!(handle.hop(2).is_none());
    let copy = handle.duplicate();
    assert_eq!(hops(&copy), hops(&handle));
}

#[test]
fn new_directory_is_used_by_the_next_hop() {
    let mut manager = manager();
    create_ok(&mut manager, FP_A);
    let mut smaller = NetworkDirectory::new(NetParameters::default());
    smaller.add_relay(relay(FP_Z, RelayFlags::empty(), 9));
    manager.init(smaller);
    assert_eq!(manager.extend("10.0.0.2", 443, FP_B), Err(CircuitError::RelayNotFound));
    assert_eq!(extend_ok(&mut manager, FP_Z).hop_count(), 2);
}
