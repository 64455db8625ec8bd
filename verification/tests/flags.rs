use tor_circuits::flags::{u32_to_relay_flags, RelayFlag, RelayFlags};

const ALL: [RelayFlag; 13] = [
    RelayFlag::Authority,
    RelayFlag::BadExit,
    RelayFlag::Exit,
    RelayFlag::Fast,
    RelayFlag::Guard,
    RelayFlag::HsDir,
    RelayFlag::MiddleOnly,
    RelayFlag::NoEdConsensus,
    RelayFlag::Stable,
    RelayFlag::StaleDesc,
    RelayFlag::Running,
    RelayFlag::Valid,
    RelayFlag::V2Dir,
];

#[test]
fn each_bit_names_its_flag() {
    for (position, flag) in ALL.iter().enumerate() {
        assert_eq!(flag.bit(), position as u32);
        let flags = u32_to_relay_flags(1u32 << position);
        for other in ALL.iter() {
            assert_eq!(flags.has(*other), other == flag);
        }
    }
}

#[test]
fn bitmask_table_is_fixed() {
    assert!(u32_to_relay_flags(0x0001).has(RelayFlag::Authority));
    assert!(u32_to_relay_flags(0x0002).has(RelayFlag::BadExit));
    assert!(u32_to_relay_flags(0x0004).has(RelayFlag::Exit));
    assert!(u32_to_relay_flags(0x0008).has(RelayFlag::Fast));
    assert!(u32_to_relay_flags(0x0010).has(RelayFlag::Guard));
    assert!(u32_to_relay_flags(0x0020).has(RelayFlag::HsDir));
    assert!(u32_to_relay_flags(0x0040).has(RelayFlag::MiddleOnly));
    assert!(u32_to_relay_flags(0x0080).has(RelayFlag::NoEdConsensus));
    assert!(u32_to_relay_flags(0x0100).has(RelayFlag::Stable));
    assert!(u32_to_relay_flags(0x0200).has(RelayFlag::StaleDesc));
    assert!(u32_to_relay_flags(0x0400).has(RelayFlag::Running));
    assert!(u32_to_relay_flags(0x0800).has(RelayFlag::Valid));
    assert!(u32_to_relay_flags(0x1000).has(RelayFlag::V2Dir));
}

#[test]
fn zero_mask_is_empty() {
    let flags = u32_to_relay_flags(0);
    assert_eq!(flags, RelayFlags::empty());
    assert_eq!(flags.bits(), 0);
    for flag in ALL.iter() {
        assert!(!flags.has(*flag));
    }
}

#[test]
fn high_bits_name_no_flag() {
    assert_eq!(u32_to_relay_flags(0xffff_e000), RelayFlags::empty());
    assert_eq!(u32_to_relay_flags(0xffff_ffff).bits(), 0x1fff);
    assert_eq!(u32_to_relay_flags(0x2004), u32_to_relay_flags(0x0004));
}

#[test]
fn exit_and_fast_is_twelve() {
    let flags = RelayFlags::empty().with(RelayFlag::Exit).with(RelayFlag::Fast);
    assert_eq!(flags.bits(), 12);
    assert_eq!(flags, u32_to_relay_flags(12));
}

#[test]
fn contains_means_superset() {
    let guard_fast = RelayFlags::empty().with(RelayFlag::Guard).with(RelayFlag::Fast);
    let exit_fast = RelayFlags::empty().with(RelayFlag::Exit).with(RelayFlag::Fast);
    let fast = RelayFlags::empty().with(RelayFlag::Fast);
    assert!(guard_fast.contains(fast));
    assert!(exit_fast.contains(fast));
    assert!(!fast.contains(exit_fast));
    assert!(!guard_fast.contains(exit_fast));
    assert!(guard_fast.contains(guard_fast));
    assert!(fast.contains(RelayFlags::empty()));
    assert!(RelayFlags::empty().contains(RelayFlags::empty()));
}

#[test]
fn adding_a_flag_twice_changes_nothing() {
    let once = RelayFlags::empty().with(RelayFlag::Stable);
    assert_eq!(once.with(RelayFlag::Stable), once);
    assert_eq!(once.bits(), 0x100);
}
