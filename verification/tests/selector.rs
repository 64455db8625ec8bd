use tor_circuits::connector::TorHSConnector;
use tor_circuits::directory::{
    IpAddress, NetParameters, NetworkDirectory, RelayAddress, RelayDescriptor,
};
use tor_circuits::error::CircuitError;
use tor_circuits::flags::{RelayFlag, RelayFlags};
use tor_circuits::identity::RelayIdentity;
use tor_circuits::selector::{matches_filter, select_relays};

const FP_A: &str = "FFA72BD683BC2FCF988356E6BEC1E490F313FB07";
const FP_B: &str = "00194C4FECEB999CF8C7EF1D202AE9BF24D17545";
const EXIT: u32 = 0x0004;
const FAST: u32 = 0x0008;
const GUARD: u32 = 0x0010;

fn relay(identity: RelayIdentity, flags: RelayFlags, addresses: usize) -> RelayDescriptor {
    let mut addrs = Vec::new();
    if addresses > 0 {
        addrs.push(RelayAddress { ip: IpAddress::V4([192, 0, 2, 1]), port: 9001 });
    }
    if addresses > 1 {
        addrs.push(RelayAddress { ip: IpAddress::V6([0x20; 16]), port: 9001 });
    }
    RelayDescriptor { identity, addrs, flags, ntor_onion_key: [7; 32] }
}

fn numbered(n: u8) -> RelayIdentity {
    let mut bytes = [0u8; 20];
    bytes[0] = 0xAB;
    bytes[19] = n;
    RelayIdentity::from_bytes(&bytes).unwrap()
}

fn guard_fast() -> RelayFlags {
    RelayFlags::empty().with(RelayFlag::Guard).with(RelayFlag::Fast)
}

fn exit_fast() -> RelayFlags {
    RelayFlags::empty().with(RelayFlag::Exit).with(RelayFlag::Fast)
}

fn two_relays() -> NetworkDirectory {
    let mut dir = NetworkDirectory::new(NetParameters::default());
    dir.add_relay(relay(RelayIdentity::from_fingerprint(FP_A).unwrap(), guard_fast(), 1));
    dir.add_relay(relay(RelayIdentity::from_fingerprint(FP_B).unwrap(), exit_fast(), 1));
    dir
}

/// Twelve exits, numbered 0 to 11, with a guard after every third of them.
fn twelve_exits() -> NetworkDirectory {
    let mut dir = NetworkDirectory::new(NetParameters::default());
    for n in 0..12u8 {
        dir.add_relay(relay(numbered(n), exit_fast(), 1 + (n as usize % 2)));
        if n % 3 == 0 {
            dir.add_relay(relay(numbered(100 + n), guard_fast(), 2));
        }
    }
    dir
}

fn hex_of(n: u8) -> String {
    numbered(n).to_hex()
}

#[test]
fn select_exit_fast_returns_only_the_exit() {
    let dir = two_relays();
    let found = select_relays(&dir, EXIT | FAST, false, 0, -1);
    assert_eq!(found, vec![FP_B.to_lowercase()]);
}

#[test]
fn select_returns_lower_case_hex() {
    let dir = two_relays();
    let found = select_relays(&dir, GUARD, false, 0, -1);
    assert_eq!(found, vec!["ffa72bd683bc2fcf988356e6bec1e490f313fb07".to_string()]);
}

#[test]
fn select_without_flags_returns_every_relay_in_order() {
    let dir = two_relays();
    let found = select_relays(&dir, 0, false, 0, -1);
    assert_eq!(found, vec![FP_A.to_lowercase(), FP_B.to_lowercase()]);
    let fast = select_relays(&dir, FAST, false, 0, -1);
    assert_eq!(fast, found);
}

#[test]
fn select_all_has_every_match_once_and_in_order() {
    let dir = twelve_exits();
    let found = select_relays(&dir, EXIT, false, 0, -1);
    let expected: Vec<String> = (0..12u8).map(hex_of).collect();
    assert_eq!(found, expected);
    let mut sorted = found.clone();
    sorted.sort();
    sorted.dedup();
    assert_eq!(sorted.len(), 12);
    assert_eq!(select_relays(&dir, EXIT, false, 0, -1), found);
}

#[test]
fn select_needs_every_flag_of_the_mask() {
    let dir = twelve_exits();
    assert!(select_relays(&dir, EXIT | GUARD, false, 0, -1).is_empty());
    assert_eq!(select_relays(&dir, GUARD | FAST, false, 0, -1).len(), 4);
    assert_eq!(select_relays(&dir, FAST, false, 0, -1).len(), 16);
    assert!(select_relays(&dir, 0x1000, false, 0, -1).is_empty());
}

#[test]
fn select_page_of_ten_from_five_of_twelve_has_seven() {
    let dir = twelve_exits();
    let found = select_relays(&dir, EXIT | FAST, false, 5, 10);
    let expected: Vec<String> = (5..12u8).map(hex_of).collect();
    assert_eq!(found.len(), 7);
    assert_eq!(found, expected);
}

#[test]
fn select_limit_bounds_the_page() {
    let dir = twelve_exits();
    let found = select_relays(&dir, EXIT, false, 2, 3);
    let expected: Vec<String> = (2..5u8).map(hex_of).collect();
    assert_eq!(found, expected);
    assert!(select_relays(&dir, EXIT, false, 2, 0).is_empty());
    assert_eq!(select_relays(&dir, EXIT, false, 0, 12).len(), 12);
    assert_eq!(select_relays(&dir, EXIT, false, 0, i32::MAX).len(), 12);
    assert_eq!(select_relays(&dir, EXIT, false, 11, 1), vec![hex_of(11)]);
}

#[test]
fn select_negative_limit_is_unbounded() {
    let dir = twelve_exits();
    assert_eq!(select_relays(&dir, EXIT, false, 3, -1).len(), 9);
    assert_eq!(select_relays(&dir, EXIT, false, 3, i32::MIN).len(), 9);
}

#[test]
fn select_offset_beyond_the_matches_is_empty() {
    let dir = twelve_exits();
    assert!(select_relays(&dir, EXIT, false, 12, -1).is_empty());
    assert!(select_relays(&dir, EXIT, false, 13, 10).is_empty());
    assert!(select_relays(&dir, EXIT, false, usize::MAX, i32::MAX).is_empty());
    assert!(select_relays(&dir, EXIT, false, usize::MAX, -1).is_empty());
}

#[test]
fn select_ipv6_needs_a_second_address() {
    let dir = twelve_exits();
    let found = select_relays(&dir, EXIT, true, 0, -1);
    let expected: Vec<String> = [1u8, 3, 5, 7, 9, 11].iter().map(|n| hex_of(*n)).collect();
    assert_eq!(found, expected);
    let both = two_relays();
    assert!(select_relays(&both, 0, true, 0, -1).is_empty());
}

#[test]
fn select_on_an_empty_directory_is_empty() {
    let dir = NetworkDirectory::new(NetParameters::default());
    assert!(select_relays(&dir, 0, false, 0, -1).is_empty());
}

#[test]
fn filter_is_flags_and_addresses() {
    let ipv4_only = relay(numbered(1), exit_fast(), 1);
    let dual = relay(numbered(2), exit_fast(), 2);
    let wanted = RelayFlags::empty().with(RelayFlag::Exit);
    assert!(matches_filter(&ipv4_only, wanted, false));
    assert!(!matches_filter(&ipv4_only, wanted, true));
    assert!(matches_filter(&dual, wanted, true));
    assert!(!matches_filter(&dual, guard_fast(), false));
}

#[test]
fn connector_selects_from_its_directory() {
    let mut connector = TorHSConnector::new();
    assert_eq!(
        connector.select_relays(EXIT | FAST, false, 0, -1),
        Err(CircuitError::NotInitialized)
    );
    connector.set_directory(two_relays());
    assert_eq!(
        connector.select_relays(EXIT | FAST, false, 0, -1),
        Ok(vec![FP_B.to_lowercase()])
    );
    assert_eq!(connector.u32_to_relay_flags(EXIT | FAST), exit_fast());
}
