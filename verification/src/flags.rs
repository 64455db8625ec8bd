//! Capability flags of relays and the bitmask they are requested with.

use vstd::prelude::*;

verus! {

/// A capability that the directory ascribes to a relay.
#[derive(Clone, Copy, Debug, PartialEq, Eq, Structural)]
pub enum RelayFlag {
    Authority,
    BadExit,
    Exit,
    Fast,
    Guard,
    HsDir,
    MiddleOnly,
    NoEdConsensus,
    Stable,
    StaleDesc,
    Running,
    Valid,
    V2Dir,
}

impl RelayFlag {
    /// The position of this flag's bit in a filter bitmask.
    pub open spec fn spec_bit(self) -> u32 {
        match self {
            RelayFlag::Authority => 0,
            RelayFlag::BadExit => 1,
            RelayFlag::Exit => 2,
            RelayFlag::Fast => 3,
            RelayFlag::Guard => 4,
            RelayFlag::HsDir => 5,
            RelayFlag::MiddleOnly => 6,
            RelayFlag::NoEdConsensus => 7,
            RelayFlag::Stable => 8,
            RelayFlag::StaleDesc => 9,
            RelayFlag::Running => 10,
            RelayFlag::Valid => 11,
            RelayFlag::V2Dir => 12,
        }
    }

    /// The position of this flag's bit in a filter bitmask.
    pub fn bit(self) -> (position: u32)
        ensures
            position == self.spec_bit(),
            position < 13,
    {
        match self {
            RelayFlag::Authority => 0,
            RelayFlag::BadExit => 1,
            RelayFlag::Exit => 2,
            RelayFlag::Fast => 3,
            RelayFlag::Guard => 4,
            RelayFlag::HsDir => 5,
            RelayFlag::MiddleOnly => 6,
            RelayFlag::NoEdConsensus => 7,
            RelayFlag::Stable => 8,
            RelayFlag::StaleDesc => 9,
            RelayFlag::Running => 10,
            RelayFlag::Valid => 11,
            RelayFlag::V2Dir => 12,
        }
    }
}

/// Whether bit `position` of `mask` is set.
pub open spec fn mask_has_bit(mask: u32, position: u32) -> bool {
    mask & (1u32 << position) != 0
}

/// The flags that a filter bitmask asks for. Bits above the thirteenth name
/// no flag and are ignored.
pub open spec fn decode_flags(mask: u32) -> Set<RelayFlag> {
    Set::new(|flag: RelayFlag| mask_has_bit(mask, flag.spec_bit()))
}

/// A set of capability flags.
#[derive(Clone, Copy, Debug, PartialEq, Eq, Structural)]
pub struct RelayFlags {
    bits: u32,
}

impl View for RelayFlags {
    type V = Set<RelayFlag>;

    closed spec fn view(&self) -> Set<RelayFlag> {
        decode_flags(self.bits)
    }
}

proof fn lemma_low_bits(mask: u32)
    ensures
        decode_flags(mask & 0x1fff) == decode_flags(mask),
        (mask & 0x1fff) & !0x1fffu32 == 0,
{
    assert forall|position: u32| position < 13 implies mask_has_bit(mask & 0x1fff, position)
        == mask_has_bit(mask, position) by {
        assert(position < 13 ==> ((mask & 0x1fff) & (1u32 << position) != 0) == (mask & (1u32
            << position) != 0)) by (bit_vector);
    }
    assert(decode_flags(mask & 0x1fff) =~= decode_flags(mask));
    assert((mask & 0x1fff) & !0x1fffu32 == 0) by (bit_vector);
}

proof fn lemma_single_bit(bits: u32, position: u32)
    requires
        position < 13,
    ensures
        mask_has_bit(bits | (1u32 << position), position),
        forall|other: u32|
            other < 13 && other != position ==> mask_has_bit(bits | (1u32 << position), other)
                == #[trigger] mask_has_bit(bits, other),
        bits & !0x1fffu32 == 0 ==> (bits | (1u32 << position)) & !0x1fffu32 == 0,
{
    assert(position < 13 ==> (bits | (1u32 << position)) & (1u32 << position) != 0)
        by (bit_vector);
    assert forall|other: u32| other < 13 && other != position implies mask_has_bit(
        bits | (1u32 << position),
        other,
    ) == #[trigger] mask_has_bit(bits, other) by {
        assert(other < 13 && position < 13 && other != position ==> ((bits | (1u32 << position))
            & (1u32 << other) != 0) == (bits & (1u32 << other) != 0)) by (bit_vector);
    }
    assert(position < 13 && bits & !0x1fffu32 == 0 ==> (bits | (1u32 << position)) & !0x1fffu32
        == 0) by (bit_vector);
}

proof fn lemma_subset_bits(a: u32, b: u32)
    requires
        b & !0x1fffu32 == 0,
    ensures
        (a & b == b) <==> decode_flags(b).subset_of(decode_flags(a)),
{
    if a & b == b {
        assert forall|flag: RelayFlag| decode_flags(b).contains(flag) implies decode_flags(
            a,
        ).contains(flag) by {
            let position = flag.spec_bit();
            assert(a & b == b && b & (1u32 << position) != 0 ==> a & (1u32 << position) != 0)
                by (bit_vector);
        }
    }
    if decode_flags(b).subset_of(decode_flags(a)) {
        assert forall|position: u32| position < 13 && mask_has_bit(b, position) implies mask_has_bit(
            a,
            position,
        ) by {
            let flag = flag_at(position);
            assert(decode_flags(b).contains(flag));
            assert(decode_flags(a).contains(flag));
        }
        assert(b & !0x1fffu32 == 0 && (b & 1 != 0 ==> a & 1 != 0) && (b & 2 != 0 ==> a & 2 != 0)
            && (b & 4 != 0 ==> a & 4 != 0) && (b & 8 != 0 ==> a & 8 != 0) && (b & 16 != 0 ==> a
            & 16 != 0) && (b & 32 != 0 ==> a & 32 != 0) && (b & 64 != 0 ==> a & 64 != 0) && (b
            & 128 != 0 ==> a & 128 != 0) && (b & 256 != 0 ==> a & 256 != 0) && (b & 512 != 0 ==> a
            & 512 != 0) && (b & 1024 != 0 ==> a & 1024 != 0) && (b & 2048 != 0 ==> a & 2048 != 0)
            && (b & 4096 != 0 ==> a & 4096 != 0) ==> a & b == b) by (bit_vector);
        lemma_shifts();
        assert(mask_has_bit(b, 0) ==> mask_has_bit(a, 0));
        assert(mask_has_bit(b, 1) ==> mask_has_bit(a, 1));
        assert(mask_has_bit(b, 2) ==> mask_has_bit(a, 2));
        assert(mask_has_bit(b, 3) ==> mask_has_bit(a, 3));
        assert(mask_has_bit(b, 4) ==> mask_has_bit(a, 4));
        assert(mask_has_bit(b, 5) ==> mask_has_bit(a, 5));
        assert(mask_has_bit(b, 6) ==> mask_has_bit(a, 6));
        assert(mask_has_bit(b, 7) ==> mask_has_bit(a, 7));
        assert(mask_has_bit(b, 8) ==> mask_has_bit(a, 8));
        assert(mask_has_bit(b, 9) ==> mask_has_bit(a, 9));
        assert(mask_has_bit(b, 10) ==> mask_has_bit(a, 10));
        assert(mask_has_bit(b, 11) ==> mask_has_bit(a, 11));
        assert(mask_has_bit(b, 12) ==> mask_has_bit(a, 12));
    }
}

/// The value of `1 << position` for each position that names a flag.
proof fn lemma_shifts()
    ensures
        1u32 << 0u32 == 1,
        1u32 << 1u32 == 2,
        1u32 << 2u32 == 4,
        1u32 << 3u32 == 8,
        1u32 << 4u32 == 16,
        1u32 << 5u32 == 32,
        1u32 << 6u32 == 64,
        1u32 << 7u32 == 128,
        1u32 << 8u32 == 256,
        1u32 << 9u32 == 512,
        1u32 << 10u32 == 1024,
        1u32 << 11u32 == 2048,
        1u32 << 12u32 == 4096,
{
    assert(1u32 << 0u32 == 1 && 1u32 << 1u32 == 2 && 1u32 << 2u32 == 4 && 1u32 << 3u32 == 8 && 1u32
        << 4u32 == 16 && 1u32 << 5u32 == 32 && 1u32 << 6u32 == 64 && 1u32 << 7u32 == 128 && 1u32
        << 8u32 == 256 && 1u32 << 9u32 == 512 && 1u32 << 10u32 == 1024 && 1u32 << 11u32 == 2048
        && 1u32 << 12u32 == 4096) by (bit_vector);
}

/// The flag whose bit stands at `position`.
pub open spec fn flag_at(position: u32) -> RelayFlag {
    if position == 0 {
        RelayFlag::Authority
    } else if position == 1 {
        RelayFlag::BadExit
    } else if position == 2 {
        RelayFlag::Exit
    } else if position == 3 {
        RelayFlag::Fast
    } else if position == 4 {
        RelayFlag::Guard
    } else if position == 5 {
        RelayFlag::HsDir
    } else if position == 6 {
        RelayFlag::MiddleOnly
    } else if position == 7 {
        RelayFlag::NoEdConsensus
    } else if position == 8 {
        RelayFlag::Stable
    } else if position == 9 {
        RelayFlag::StaleDesc
    } else if position == 10 {
        RelayFlag::Running
    } else if position == 11 {
        RelayFlag::Valid
    } else {
        RelayFlag::V2Dir
    }
}

impl RelayFlags {
    /// No flag at all.
    pub fn empty() -> (flags: RelayFlags)
        ensures
            flags@ == Set::<RelayFlag>::empty(),
    {
        let flags = RelayFlags { bits: 0 };
        proof {
            assert forall|flag: RelayFlag| !decode_flags(0).contains(flag) by {
                let position = flag.spec_bit();
                assert(0u32 & (1u32 << position) == 0) by (bit_vector);
            }
            assert(flags@ =~= Set::<RelayFlag>::empty());
        }
        flags
    }

    /// The flags named by the low thirteen bits of `mask`.
    pub fn from_bits_truncate(mask: u32) -> (flags: RelayFlags)
        ensures
            flags@ == decode_flags(mask),
    {
        proof {
            lemma_low_bits(mask);
        }
        RelayFlags { bits: mask & 0x1fff }
    }

    /// The bitmask that names exactly these flags.
    pub fn bits(&self) -> (mask: u32)
        ensures
            decode_flags(mask) == self@,
            mask < 0x2000,
    {
        proof {
            lemma_low_bits(self.bits);
            let b = self.bits;
            assert(decode_flags(b & 0x1fff) == decode_flags(b));
            assert((b & 0x1fff) < 0x2000) by (bit_vector);
        }
        self.bits & 0x1fff
    }

    /// These flags and `flag`.
    pub fn with(self, flag: RelayFlag) -> (flags: RelayFlags)
        ensures
            flags@ == self@.insert(flag),
    {
        let position = flag.bit();
        let flags = RelayFlags { bits: self.bits | (1u32 << position) };
        proof {
            lemma_single_bit(self.bits, position);
            assert forall|other: RelayFlag| flags@.contains(other) == self@.insert(flag).contains(
                other,
            ) by {
                if other != flag {
                    assert(other.spec_bit() != position);
                    assert(mask_has_bit(self.bits, other.spec_bit()) == mask_has_bit(
                        flags.bits,
                        other.spec_bit(),
                    ));
                }
            }
            assert(flags@ =~= self@.insert(flag));
        }
        flags
    }

    /// Whether `flag` is among these flags.
    pub fn has(&self, flag: RelayFlag) -> (present: bool)
        ensures
            present == self@.contains(flag),
    {
        let position = flag.bit();
        self.bits & (1u32 << position) != 0
    }

    /// Whether every flag of `required` is among these flags.
    pub fn contains(&self, required: RelayFlags) -> (all: bool)
        ensures
            all == required@.subset_of(self@),
    {
        let wanted = required.bits & 0x1fff;
        proof {
            lemma_low_bits(required.bits);
            lemma_subset_bits(self.bits, wanted);
        }
        self.bits & wanted == wanted
    }
}

/// Decodes a filter bitmask: bit 0 is `Authority`, bit 1 `BadExit`, bit 2
/// `Exit`, bit 3 `Fast`, bit 4 `Guard`, bit 5 `HsDir`, bit 6 `MiddleOnly`,
/// bit 7 `NoEdConsensus`, bit 8 `Stable`, bit 9 `StaleDesc`, bit 10 `Running`,
/// bit 11 `Valid` and bit 12 `V2Dir`.
pub fn u32_to_relay_flags(flags_u32: u32) -> (flags: RelayFlags)
    ensures
        flags@ == decode_flags(flags_u32),
{
    RelayFlags::from_bits_truncate(flags_u32)
}

} // verus!
