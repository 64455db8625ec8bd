//! The table of live links, one to a relay.

use vstd::prelude::*;
use crate::directory::{CustomNetDirProvider, DirEvent, NetworkDirectory, Timeliness};
use crate::error::CircuitError;
use crate::identity::RelayIdentity;

verus! {

/// Seconds after which an attempt to connect to a relay is given up.
pub const CONNECT_TIMEOUT_SECS: u64 = 10;

/// What a link is wanted for.
#[derive(Clone, Copy, Debug, PartialEq, Eq, Structural)]
pub enum ChannelUsage {
    UserTraffic,
    Dir,
    UselessCircuit,
}

/// Whether the client is in use or at rest.
#[derive(Clone, Copy, Debug, PartialEq, Eq, Structural)]
pub enum Dormancy {
    Active,
    Dormant,
}

/// Whether a link was there already or has just been made.
#[derive(Clone, Copy, Debug, PartialEq, Eq, Structural)]
pub enum ChanProvenance {
    NewlyCreated,
    Preexisting,
}

/// What the caller has to do to get a link.
#[derive(Clone, Copy, Debug, PartialEq, Eq, Structural)]
pub enum ChannelDecision {
    /// A live link to the relay exists: use it.
    Reuse,
    /// None exists: connect, within the given number of seconds, and
    /// report how it went.
    Launch { connect_timeout_secs: u64 },
}

/// How an attempt to launch a link ended.
#[derive(Clone, Copy, Debug, PartialEq, Eq, Structural)]
pub enum LaunchOutcome {
    Established,
    ConnectTimedOut,
    HandshakeFailed,
}

/// Whether `id` occurs in `live`.
pub open spec fn has_link(live: Seq<RelayIdentity>, id: Seq<u8>) -> bool {
    exists|i: int| 0 <= i < live.len() && (#[trigger] live[i])@ == id
}

/// No relay has two links in `live`.
pub open spec fn one_link_each(live: Seq<RelayIdentity>) -> bool {
    forall|i: int, j: int| 0 <= i < j < live.len() ==> (#[trigger] live[i])@ != (#[trigger] live[j])@
}

/// The links of a client: at most one live link to each relay, shared by
/// all circuits that go through that relay.
#[derive(Debug)]
pub struct ChannelTable {
    live: Vec<RelayIdentity>,
    dormancy: Dormancy,
}

impl View for ChannelTable {
    type V = Seq<RelayIdentity>;

    /// The relays to which a live link exists, oldest link first.
    closed spec fn view(&self) -> Seq<RelayIdentity> {
        self.live@
    }
}

impl ChannelTable {
    /// At most one live link per relay.
    pub open spec fn wf(&self) -> bool {
        one_link_each(self@)
    }

    pub closed spec fn spec_dormancy(&self) -> Dormancy {
        self.dormancy
    }

    /// A table without links.
    pub fn new(dormancy: Dormancy) -> (table: ChannelTable)
        ensures
            table.wf(),
            table@ == Seq::<RelayIdentity>::empty(),
            table.spec_dormancy() == dormancy,
    {
        ChannelTable { live: Vec::new(), dormancy }
    }

    fn position(&self, target: &RelayIdentity) -> (found: Option<usize>)
        ensures
            found is Some <==> has_link(self@, target@),
            found is Some ==> found->Some_0 < self@.len() && self@[found->Some_0 as int]@
                == target@,
    {
        let mut i: usize = 0;
        while i < self.live.len()
            invariant
                i <= self.live@.len(),
                forall|j: int| 0 <= j < i ==> (#[trigger] self.live@[j])@ != target@,
            decreases self.live@.len() - i,
        {
            if self.live[i].same_as(target) {
                return Some(i);
            }
            i = i + 1;
        }
        None
    }

    /// Whether a live link to `target` exists.
    pub fn is_live(&self, target: &RelayIdentity) -> (live: bool)
        ensures
            live == has_link(self@, target@),
    {
        self.position(target).is_some()
    }

    /// Number of live links.
    pub fn len(&self) -> (n: usize)
        ensures
            n == self@.len(),
    {
        self.live.len()
    }

    /// Decides how to get a link to `target`: an existing one is reused,
    /// whatever it is wanted for; otherwise one has to be launched.
    pub fn get_or_launch(&self, target: &RelayIdentity, usage: ChannelUsage) -> (decision:
        ChannelDecision)
        ensures
            has_link(self@, target@) ==> decision == ChannelDecision::Reuse,
            !has_link(self@, target@) ==> decision == (ChannelDecision::Launch {
                connect_timeout_secs: CONNECT_TIMEOUT_SECS,
            }),
    {
        if self.is_live(target) {
            ChannelDecision::Reuse
        } else {
            ChannelDecision::Launch { connect_timeout_secs: CONNECT_TIMEOUT_SECS }
        }
    }

    /// Records how the launch of a link to `target` ended.
    ///
    /// An established link is entered in the table, unless one to the same
    /// relay is there already, which is then the one that stays. A launch
    /// that timed out or whose handshake failed is `ChannelLaunchFailed`, and
    /// the table stays as it was.
    pub fn launch_finished(&mut self, target: &RelayIdentity, outcome: LaunchOutcome) -> (link:
        Result<ChanProvenance, CircuitError>)
        requires
            old(self).wf(),
        ensures
            final(self).wf(),
            final(self).spec_dormancy() == old(self).spec_dormancy(),
            outcome != LaunchOutcome::Established ==> link == Err::<ChanProvenance, CircuitError>(
                CircuitError::ChannelLaunchFailed,
            ) && final(self)@ == old(self)@,
            outcome == LaunchOutcome::Established && has_link(old(self)@, target@) ==> link == Ok::<
                ChanProvenance,
                CircuitError,
            >(ChanProvenance::Preexisting) && final(self)@ == old(self)@,
            outcome == LaunchOutcome::Established && !has_link(old(self)@, target@) ==> link
                == Ok::<ChanProvenance, CircuitError>(ChanProvenance::NewlyCreated) && final(self)@
                == old(self)@.push(*target),
    {
        match outcome {
            LaunchOutcome::Established => {
                if self.is_live(target) {
                    Ok(ChanProvenance::Preexisting)
                } else {
                    self.live.push(*target);
                    Ok(ChanProvenance::NewlyCreated)
                }
            },
            _ => Err(CircuitError::ChannelLaunchFailed),
        }
    }

    /// Forgets the link to `target`: it has been torn down, or its dispatch
    /// loop has ended. This is no error. Without such a link nothing changes.
    pub fn channel_closed(&mut self, target: &RelayIdentity) -> (closed: bool)
        requires
            old(self).wf(),
        ensures
            final(self).wf(),
            final(self).spec_dormancy() == old(self).spec_dormancy(),
            closed == has_link(old(self)@, target@),
            !has_link(final(self)@, target@),
            forall|other: Seq<u8>|
                other != target@ ==> has_link(final(self)@, other) == has_link(old(self)@, other),
            closed ==> final(self)@.len() == old(self)@.len() - 1,
            !closed ==> final(self)@ == old(self)@,
    {
        match self.position(target) {
            Some(i) => {
                let ghost before = self.live@;
                self.live.remove(i);
                proof {
                    let after = self.live@;
                    assert(after =~= before.remove(i as int));
                    assert forall|other: Seq<u8>| other != target@ implies has_link(after, other)
                        == has_link(before, other) by {
                        if has_link(before, other) {
                            let k = choose|k: int| 0 <= k < before.len() && before[k]@ == other;
                            if k < i {
                                assert(after[k]@ == other);
                            } else {
                                assert(after[k - 1]@ == other);
                            }
                        }
                        if has_link(after, other) {
                            let k = choose|k: int| 0 <= k < after.len() && after[k]@ == other;
                            if k < i {
                                assert(before[k]@ == other);
                            } else {
                                assert(before[k + 1]@ == other);
                            }
                        }
                    }
                    if has_link(after, target@) {
                        let k = choose|k: int| 0 <= k < after.len() && after[k]@ == target@;
                        if k < i {
                            assert(before[k]@ == target@);
                        } else {
                            assert(before[k + 1]@ == target@);
                        }
                    }
                }
                true
            },
            None => false,
        }
    }

    /// Whether the client is in use or at rest.
    pub fn dormancy(&self) -> (dormancy: Dormancy)
        ensures
            dormancy == self.spec_dormancy(),
    {
        self.dormancy
    }

    /// Whether links that carry no circuit are to be closed without waiting
    /// for them to fail: they are while the client is at rest.
    pub fn closes_idle_links(&self) -> (closes: bool)
        ensures
            closes == (self.spec_dormancy() == Dormancy::Dormant),
    {
        match self.dormancy {
            Dormancy::Dormant => true,
            Dormancy::Active => false,
        }
    }

    /// Sets whether the client is in use or at rest. The links stay.
    pub fn set_dormancy(&mut self, dormancy: Dormancy)
        ensures
            final(self)@ == old(self)@,
            final(self).spec_dormancy() == dormancy,
    {
        self.dormancy = dormancy;
    }
}

/// The link table together with the holder of the directory snapshot.
#[derive(Debug)]
pub struct TorChannelManager {
    chan_mgr: ChannelTable,
    dir_provider: CustomNetDirProvider,
}

impl TorChannelManager {
    pub closed spec fn links(&self) -> ChannelTable {
        self.chan_mgr
    }

    pub closed spec fn provider(&self) -> CustomNetDirProvider {
        self.dir_provider
    }

    pub open spec fn wf(&self) -> bool {
        self.links().wf() && self.provider().wf()
    }

    /// A manager without links; the client is active. Its holder has no
    /// directory yet, has never held one, and has no subscribers.
    pub fn new() -> (manager: TorChannelManager)
        ensures
            manager.wf(),
            manager.links()@ == Seq::<RelayIdentity>::empty(),
            manager.links().spec_dormancy() == Dormancy::Active,
            manager.provider().current() is None,
            manager.provider().spec_version() == 0,
            manager.provider().backlogs() == Seq::<Seq<DirEvent>>::empty(),
    {
        TorChannelManager {
            chan_mgr: ChannelTable::new(Dormancy::Active),
            dir_provider: CustomNetDirProvider::new(),
        }
    }

    /// Takes `netdir` as the current directory snapshot, and tells the
    /// subscribers of the holder.
    pub fn init(&mut self, netdir: NetworkDirectory)
        requires
            old(self).wf(),
            netdir.wf(),
        ensures
            final(self).wf(),
            final(self).links() == old(self).links(),
            final(self).provider().current() == Some(netdir),
            final(self).provider().backlogs() == CustomNetDirProvider::published(
                old(self).provider().backlogs(),
                DirEvent::NewConsensus,
            ),
    {
        self.dir_provider.set_netdir(netdir);
    }

    /// The current directory snapshot; `NoDirectoryAvailable` before `init`.
    pub fn netdir(&self) -> (dir: Result<&NetworkDirectory, CircuitError>)
        ensures
            match self.provider().current() {
                Some(held) => dir is Ok && *dir->Ok_0 == held,
                None => dir == Err::<&NetworkDirectory, CircuitError>(
                    CircuitError::NoDirectoryAvailable,
                ),
            },
    {
        self.dir_provider.netdir(Timeliness::Timely)
    }

    /// The link table.
    pub fn get_chanmgr(&self) -> (table: &ChannelTable)
        ensures
            *table == self.links(),
    {
        &self.chan_mgr
    }

    /// The holder of the directory snapshot.
    pub fn dir_provider(&self) -> (holder: &CustomNetDirProvider)
        ensures
            *holder == self.provider(),
    {
        &self.dir_provider
    }

    /// The holder of the directory snapshot, to subscribe to its changes.
    pub fn dir_provider_mut(&mut self) -> (holder: &mut CustomNetDirProvider)
        ensures
            *holder == old(self).provider(),
            final(self).provider() == *final(holder),
            final(self).links() == old(self).links(),
    {
        &mut self.dir_provider
    }

    /// The link table, to record launches and closures in.
    pub fn chanmgr_mut(&mut self) -> (table: &mut ChannelTable)
        ensures
            *table == old(self).links(),
            final(self).links() == *final(table),
            final(self).provider() == old(self).provider(),
    {
        &mut self.chan_mgr
    }
}

} // verus!
