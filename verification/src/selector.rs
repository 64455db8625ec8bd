//! Filtering the relays of a directory snapshot by capability.

use vstd::prelude::*;
use crate::directory::{distinct_identities, NetworkDirectory, RelayDescriptor};
use crate::flags::{decode_flags, u32_to_relay_flags, RelayFlag, RelayFlags};
use crate::identity::{bytes_to_hex, law_hex_is_injective};

verus! {

/// A relay is kept when it has every required flag and, where IPv6 is asked
/// for, advertises more than one address.
pub open spec fn relay_matches(
    relay: RelayDescriptor,
    required: Set<RelayFlag>,
    ipv6_required: bool,
) -> bool {
    required.subset_of(relay.flags@) && (!ipv6_required || relay.spec_has_ipv6())
}

/// The relays that are kept, in the order of the snapshot.
pub open spec fn matching_relays(
    relays: Seq<RelayDescriptor>,
    required: Set<RelayFlag>,
    ipv6_required: bool,
) -> Seq<RelayDescriptor> {
    relays.filter(|relay: RelayDescriptor| relay_matches(relay, required, ipv6_required))
}

/// Index of the first match that is returned.
pub open spec fn page_start(total: int, offset: int) -> int {
    if offset < total {
        offset
    } else {
        total
    }
}

/// Index just behind the last match that is returned. A negative `limit`
/// sets no bound.
pub open spec fn page_end(total: int, offset: int, limit: int) -> int {
    if limit < 0 || offset + limit > total {
        total
    } else {
        offset + limit
    }
}

/// The fingerprints that a selection returns.
pub open spec fn selected_fingerprints(
    relays: Seq<RelayDescriptor>,
    mask: u32,
    ipv6_required: bool,
    offset: int,
    limit: int,
) -> Seq<Seq<char>> {
    let matching = matching_relays(relays, decode_flags(mask), ipv6_required);
    matching.subrange(
        page_start(matching.len() as int, offset),
        page_end(matching.len() as int, offset, limit),
    ).map_values(|relay: RelayDescriptor| bytes_to_hex(relay.identity@))
}

/// The texts of a list of strings.
pub open spec fn texts(strings: Seq<String>) -> Seq<Seq<char>> {
    strings.map_values(|s: String| s@)
}

/// What filtering keeps: relays of the snapshot that pass the filter, each
/// of them, and none twice if the snapshot lists none twice.
pub proof fn lemma_matching_relays(
    relays: Seq<RelayDescriptor>,
    required: Set<RelayFlag>,
    ipv6_required: bool,
)
    ensures
        forall|k: int|
            0 <= k < matching_relays(relays, required, ipv6_required).len() ==> relays.contains(
                #[trigger] matching_relays(relays, required, ipv6_required)[k],
            ) && relay_matches(
                matching_relays(relays, required, ipv6_required)[k],
                required,
                ipv6_required,
            ),
        forall|i: int|
            0 <= i < relays.len() && relay_matches(#[trigger] relays[i], required, ipv6_required)
                ==> matching_relays(relays, required, ipv6_required).contains(relays[i]),
        distinct_identities(relays) ==> distinct_identities(
            matching_relays(relays, required, ipv6_required),
        ),
    decreases relays.len(),
{
    reveal(Seq::filter);
    let kept = matching_relays(relays, required, ipv6_required);
    if relays.len() > 0 {
        let front = relays.drop_last();
        let front_kept = matching_relays(front, required, ipv6_required);
        lemma_matching_relays(front, required, ipv6_required);
        assert forall|k: int| 0 <= k < kept.len() implies relays.contains(#[trigger] kept[k])
            && relay_matches(kept[k], required, ipv6_required) by {
            if k < front_kept.len() {
                assert(kept[k] == front_kept[k]);
                let i = choose|i: int| 0 <= i < front.len() && front[i] == front_kept[k];
                assert(relays[i] == kept[k]);
            } else {
                assert(kept[k] == relays[relays.len() - 1]);
            }
        }
        assert forall|i: int|
            0 <= i < relays.len() && relay_matches(
                #[trigger] relays[i],
                required,
                ipv6_required,
            ) implies kept.contains(relays[i]) by {
            if i < front.len() {
                assert(front[i] == relays[i]);
                let k = choose|k: int| 0 <= k < front_kept.len() && front_kept[k] == front[i];
                assert(kept[k] == relays[i]);
            } else {
                assert(kept[kept.len() - 1] == relays[i]);
            }
        }
        if distinct_identities(relays) {
            assert(distinct_identities(front)) by {
                assert forall|i: int, j: int| 0 <= i < j < front.len() implies (
                #[trigger] front[i]).identity@ != (#[trigger] front[j]).identity@ by {
                    assert(front[i] == relays[i] && front[j] == relays[j]);
                }
            }
            assert forall|a: int, b: int| 0 <= a < b < kept.len() implies (
            #[trigger] kept[a]).identity@ != (#[trigger] kept[b]).identity@ by {
                if b < front_kept.len() {
                    assert(kept[a] == front_kept[a] && kept[b] == front_kept[b]);
                } else {
                    assert(kept[a] == front_kept[a]);
                    let i = choose|i: int| 0 <= i < front.len() && front[i] == front_kept[a];
                    assert(relays[i] == kept[a]);
                    assert(kept[b] == relays[relays.len() - 1]);
                }
            }
        }
    }
}

/// Whether `text` is the fingerprint of a relay of `relays` that has every
/// flag of `required`.
pub open spec fn names_relay_with(
    relays: Seq<RelayDescriptor>,
    required: Set<RelayFlag>,
    text: Seq<char>,
) -> bool {
    exists|i: int|
        0 <= i < relays.len() && required.subset_of((#[trigger] relays[i]).flags@) && text
            == bytes_to_hex(relays[i].identity@)
}

/// Selecting without IPv6 requirement, offset or limit returns the
/// fingerprint of every relay whose flags include all flags of the bitmask,
/// in the order of the snapshot, and none twice.
pub proof fn law_select_all(dir: NetworkDirectory, mask: u32)
    requires
        dir.wf(),
    ensures
        selected_fingerprints(dir@, mask, false, 0, -1) == matching_relays(
            dir@,
            decode_flags(mask),
            false,
        ).map_values(|relay: RelayDescriptor| bytes_to_hex(relay.identity@)),
        forall|i: int|
            0 <= i < dir@.len() && decode_flags(mask).subset_of((#[trigger] dir@[i]).flags@)
                ==> selected_fingerprints(dir@, mask, false, 0, -1).contains(
                bytes_to_hex(dir@[i].identity@),
            ),
        forall|k: int|
            0 <= k < selected_fingerprints(dir@, mask, false, 0, -1).len() ==> names_relay_with(
                dir@,
                decode_flags(mask),
                #[trigger] selected_fingerprints(dir@, mask, false, 0, -1)[k],
            ),
        selected_fingerprints(dir@, mask, false, 0, -1).no_duplicates(),
{
    let required = decode_flags(mask);
    let kept = matching_relays(dir@, required, false);
    let out = selected_fingerprints(dir@, mask, false, 0, -1);
    let hex = |relay: RelayDescriptor| bytes_to_hex(relay.identity@);
    lemma_matching_relays(dir@, required, false);
    assert(kept.subrange(0, kept.len() as int) =~= kept);
    assert(out == kept.map_values(hex));
    assert forall|i: int|
        0 <= i < dir@.len() && required.subset_of((#[trigger] dir@[i]).flags@) implies out.contains(
        bytes_to_hex(dir@[i].identity@),
    ) by {
        assert(relay_matches(dir@[i], required, false));
        let k = choose|k: int| 0 <= k < kept.len() && kept[k] == dir@[i];
        assert(out[k] == bytes_to_hex(dir@[i].identity@));
    }
    assert forall|k: int| 0 <= k < out.len() implies names_relay_with(
        dir@,
        required,
        #[trigger] out[k],
    ) by {
        assert(dir@.contains(kept[k]));
        let i = choose|i: int| 0 <= i < dir@.len() && dir@[i] == kept[k];
        assert(required.subset_of(dir@[i].flags@));
        assert(out[k] == bytes_to_hex(dir@[i].identity@));
    }
    assert forall|a: int, b: int| 0 <= a < out.len() && 0 <= b < out.len() && a != b implies out[a]
        != out[b] by {
        if a < b {
            assert(kept[a].identity@ != kept[b].identity@);
        } else {
            assert(kept[b].identity@ != kept[a].identity@);
        }
        if out[a] == out[b] {
            law_hex_is_injective(kept[a].identity@, kept[b].identity@);
        }
    }
}

/// A page holds the matches from `offset` on, at most `limit` of them, and
/// is empty where `offset` lies beyond the last match.
pub proof fn law_page_size(
    relays: Seq<RelayDescriptor>,
    mask: u32,
    ipv6_required: bool,
    offset: nat,
    limit: int,
)
    ensures
        ({
            let total = matching_relays(relays, decode_flags(mask), ipv6_required).len() as int;
            let page = selected_fingerprints(relays, mask, ipv6_required, offset as int, limit);
            &&& offset >= total ==> page.len() == 0
            &&& offset < total && (limit < 0 || offset + limit > total) ==> page.len() == total
                - offset
            &&& offset < total && 0 <= limit && offset + limit <= total ==> page.len() == limit
            &&& forall|k: int|
                0 <= k < page.len() ==> #[trigger] page[k] == bytes_to_hex(
                    matching_relays(relays, decode_flags(mask), ipv6_required)[offset
                        + k].identity@,
                )
        }),
{
}

/// Whether `relay` passes the filter.
pub fn matches_filter(relay: &RelayDescriptor, required: RelayFlags, ipv6_required: bool) -> (keep:
    bool)
    ensures
        keep == relay_matches(*relay, required@, ipv6_required),
{
    let has_required_flags = relay.flags.contains(required);
    let has_ipv6 = !ipv6_required || relay.has_ipv6();
    has_required_flags && has_ipv6
}

/// The positions in `relays` of the relays that pass the filter, ascending.
fn matching_positions(relays: &Vec<RelayDescriptor>, required: RelayFlags, ipv6_required: bool) -> (
    positions: Vec<usize>)
    ensures
        positions@.len() == matching_relays(relays@, required@, ipv6_required).len(),
        forall|k: int|
            0 <= k < positions@.len() ==> 0 <= #[trigger] positions@[k] < relays@.len()
                && relays@[positions@[k] as int] == matching_relays(
                relays@,
                required@,
                ipv6_required,
            )[k],
{
    let ghost keep = |relay: RelayDescriptor| relay_matches(relay, required@, ipv6_required);
    let mut positions: Vec<usize> = Vec::new();
    let mut i: usize = 0;
    proof {
        reveal(Seq::filter);
        assert(relays@.take(0) =~= Seq::<RelayDescriptor>::empty());
    }
    while i < relays.len()
        invariant
            i <= relays@.len(),
            keep == |relay: RelayDescriptor| relay_matches(relay, required@, ipv6_required),
            positions@.len() == relays@.take(i as int).filter(keep).len(),
            forall|k: int|
                0 <= k < positions@.len() ==> 0 <= #[trigger] positions@[k] < i
                    && relays@[positions@[k] as int] == relays@.take(i as int).filter(keep)[k],
        decreases relays@.len() - i,
    {
        proof {
            reveal(Seq::filter);
            assert(relays@.take(i + 1).drop_last() =~= relays@.take(i as int));
            assert(relays@.take(i + 1).last() == relays@[i as int]);
        }
        if matches_filter(&relays[i], required, ipv6_required) {
            positions.push(i);
        }
        i = i + 1;
    }
    proof {
        assert(relays@.take(i as int) =~= relays@);
    }
    positions
}

/// Selects relays from `dir` and returns their fingerprints as lower-case
/// hex, in the order of the snapshot.
///
/// A relay is kept when its flags include every flag that `relay_flags`
/// names and, if `ipv6_required`, it advertises more than one address.
/// `offset` skips that many leading matches; a negative `limit` returns all
/// that follow, any other at most `limit` of them. An `offset` beyond the
/// number of matches gives an empty list.
pub fn select_relays(
    dir: &NetworkDirectory,
    relay_flags: u32,
    ipv6_required: bool,
    offset: usize,
    limit: i32,
) -> (result: Vec<String>)
    ensures
        texts(result@) == selected_fingerprints(
            dir@,
            relay_flags,
            ipv6_required,
            offset as int,
            limit as int,
        ),
{
    let required = u32_to_relay_flags(relay_flags);
    let relays = dir.relays();
    let positions = matching_positions(relays, required, ipv6_required);
    let total: usize = positions.len();
    let start: usize = if offset < total {
        offset
    } else {
        total
    };
    let end: usize = if limit < 0 {
        total
    } else if (limit as usize) > total - start {
        total
    } else {
        start + (limit as usize)
    };
    let ghost matching = matching_relays(dir@, decode_flags(relay_flags), ipv6_required);
    let ghost wanted = selected_fingerprints(
        dir@,
        relay_flags,
        ipv6_required,
        offset as int,
        limit as int,
    );
    assert(start == page_start(total as int, offset as int));
    assert(end == page_end(total as int, offset as int, limit as int));
    let mut result: Vec<String> = Vec::new();
    let mut k: usize = start;
    while k < end
        invariant
            start <= k <= end <= total,
            total == positions@.len(),
            total == matching.len(),
            relays@ == dir@,
            wanted.len() == end - start,
            forall|j: int|
                0 <= j < total ==> 0 <= #[trigger] positions@[j] < relays@.len()
                    && relays@[positions@[j] as int] == matching[j],
            forall|j: int|
                0 <= j < end - start ==> #[trigger] wanted[j] == bytes_to_hex(
                    matching[start + j].identity@,
                ),
            result@.len() == k - start,
            forall|j: int| 0 <= j < k - start ==> (#[trigger] result@[j])@ == wanted[j],
        decreases end - k,
    {
        let relay = &relays[positions[k]];
        result.push(relay.identity.to_hex());
        k = k + 1;
    }
    assert(texts(result@) =~= wanted);
    result
}

} // verus!
