//! Directory snapshots and the holder that hands them out.

use vstd::prelude::*;
use crate::error::CircuitError;
use crate::flags::RelayFlags;
use crate::identity::RelayIdentity;

verus! {

/// An IP address, as its bytes in network order.
#[derive(Clone, Copy, Debug)]
pub enum IpAddress {
    V4([u8; 4]),
    V6([u8; 16]),
}

/// One address that a relay advertises.
#[derive(Clone, Copy, Debug)]
pub struct RelayAddress {
    pub ip: IpAddress,
    pub port: u16,
}

/// What the directory says of one relay.
#[derive(Debug)]
pub struct RelayDescriptor {
    pub identity: RelayIdentity,
    pub addrs: Vec<RelayAddress>,
    pub flags: RelayFlags,
    pub ntor_onion_key: [u8; 32],
}

impl RelayDescriptor {
    /// A relay advertises a second address only for IPv6.
    pub open spec fn spec_has_ipv6(&self) -> bool {
        self.addrs@.len() > 1
    }

    /// Whether the relay advertises more than one address.
    pub fn has_ipv6(&self) -> (yes: bool)
        ensures
            yes == self.spec_has_ipv6(),
    {
        self.addrs.len() > 1
    }

    /// The address to prefer: the second one where the relay has one, else
    /// the first. `None` for a relay without addresses.
    pub open spec fn spec_preferred_addr(&self) -> Option<RelayAddress> {
        if self.addrs@.len() > 1 {
            Some(self.addrs@[1])
        } else if self.addrs@.len() == 1 {
            Some(self.addrs@[0])
        } else {
            None
        }
    }

    /// The address to prefer: the second one where the relay has one, else
    /// the first. `None` for a relay without addresses.
    pub fn preferred_addr(&self) -> (addr: Option<RelayAddress>)
        ensures
            addr == self.spec_preferred_addr(),
    {
        if self.addrs.len() > 1 {
            Some(self.addrs[1])
        } else if self.addrs.len() == 1 {
            Some(self.addrs[0])
        } else {
            None
        }
    }
}

/// Whether some relay of `relays` has the identity `id`.
pub open spec fn lists_identity(relays: Seq<RelayDescriptor>, id: Seq<u8>) -> bool {
    exists|i: int| 0 <= i < relays.len() && (#[trigger] relays[i]).identity@ == id
}

/// No identity occurs twice in `relays`.
pub open spec fn distinct_identities(relays: Seq<RelayDescriptor>) -> bool {
    forall|i: int, j: int|
        0 <= i < j < relays.len() ==> (#[trigger] relays[i]).identity@ != (
        #[trigger] relays[j]).identity@
}

/// A view of all known relays at one point in time. A snapshot is never
/// changed once it has been handed to a holder; an update replaces it whole.
#[derive(Debug)]
pub struct NetworkDirectory {
    relays: Vec<RelayDescriptor>,
    params: NetParameters,
}

impl View for NetworkDirectory {
    type V = Seq<RelayDescriptor>;

    closed spec fn view(&self) -> Seq<RelayDescriptor> {
        self.relays@
    }
}

impl NetworkDirectory {
    /// A relay identity resolves to at most one relay.
    pub open spec fn wf(&self) -> bool {
        distinct_identities(self@)
    }

    /// The network parameters that came with this snapshot.
    pub closed spec fn spec_params(&self) -> NetParameters {
        self.params
    }

    /// A snapshot without relays, with the given network parameters.
    pub fn new(params: NetParameters) -> (dir: NetworkDirectory)
        ensures
            dir.wf(),
            dir@ == Seq::<RelayDescriptor>::empty(),
            dir.spec_params() == params,
    {
        NetworkDirectory { relays: Vec::new(), params }
    }

    /// Adds `relay` while the snapshot is being put together. A relay whose
    /// identity is already listed is refused, and the snapshot stays as it was.
    pub fn add_relay(&mut self, relay: RelayDescriptor) -> (added: bool)
        requires
            old(self).wf(),
        ensures
            final(self).wf(),
            final(self).spec_params() == old(self).spec_params(),
            added == !lists_identity(old(self)@, relay.identity@),
            added ==> final(self)@ == old(self)@.push(relay),
            !added ==> final(self)@ == old(self)@,
    {
        match self.position(&relay.identity) {
            Some(_) => false,
            None => {
                self.relays.push(relay);
                true
            },
        }
    }

    /// Number of relays in the snapshot.
    pub fn len(&self) -> (n: usize)
        ensures
            n == self@.len(),
    {
        self.relays.len()
    }

    /// The relays, in the order of the snapshot.
    pub fn relays(&self) -> (relays: &Vec<RelayDescriptor>)
        ensures
            relays@ == self@,
    {
        &self.relays
    }

    /// The network parameters that came with this snapshot.
    pub fn params(&self) -> (params: NetParameters)
        ensures
            params == self.spec_params(),
    {
        self.params
    }

    /// Where the relay of identity `id` stands in the snapshot.
    pub fn position(&self, id: &RelayIdentity) -> (found: Option<usize>)
        ensures
            found is Some <==> lists_identity(self@, id@),
            found is Some ==> found->Some_0 < self@.len() && self@[found->Some_0 as int].identity@
                == id@,
            found is Some ==> forall|j: int|
                0 <= j < found->Some_0 ==> (#[trigger] self@[j]).identity@ != id@,
    {
        let mut i: usize = 0;
        while i < self.relays.len()
            invariant
                i <= self.relays@.len(),
                forall|j: int| 0 <= j < i ==> (#[trigger] self.relays@[j]).identity@ != id@,
            decreases self.relays@.len() - i,
        {
            if self.relays[i].identity.same_as(id) {
                return Some(i);
            }
            i = i + 1;
        }
        None
    }

    /// The relay of identity `id`, if the snapshot lists one.
    pub fn by_id(&self, id: &RelayIdentity) -> (relay: Option<&RelayDescriptor>)
        ensures
            relay is Some <==> lists_identity(self@, id@),
            relay is Some ==> self@.contains(*relay->Some_0) && relay->Some_0.identity@ == id@,
    {
        match self.position(id) {
            Some(i) => {
                let relay = &self.relays[i];
                Some(relay)
            },
            None => None,
        }
    }
}

/// Network-wide parameters that a snapshot carries.
#[derive(Clone, Copy, Debug, PartialEq, Eq, Structural)]
pub struct NetParameters {
    /// Initial size of a circuit's fixed flow-control window, in cells.
    pub circuit_window: u32,
    /// Number of cells that one flow-control acknowledgement stands for.
    pub sendme_inc: u32,
    /// Initial congestion window, in cells.
    pub cwnd_init: u32,
}

impl NetParameters {
    /// The parameters in force while no snapshot says otherwise.
    pub open spec fn spec_default() -> NetParameters {
        NetParameters { circuit_window: 1000, sendme_inc: 31, cwnd_init: 124 }
    }
}

impl Default for NetParameters {
    fn default() -> (params: NetParameters)
        ensures
            params == NetParameters::spec_default(),
    {
        NetParameters { circuit_window: 1000, sendme_inc: 31, cwnd_init: 124 }
    }
}

/// How fresh a snapshot has to be for the caller.
#[derive(Clone, Copy, Debug, PartialEq, Eq, Structural)]
pub enum Timeliness {
    Strict,
    Timely,
    Unchecked,
}

/// Number of events that may wait for one subscriber.
pub const EVENT_BACKLOG: usize = 128;

/// A change of the directory.
#[derive(Clone, Copy, Debug, PartialEq, Eq, Structural)]
pub enum DirEvent {
    /// The snapshot has been replaced.
    NewConsensus,
    /// More is known of the relays of the snapshot.
    NewDescriptors,
}

/// A subscriber's backlog after `event` has been offered to it: the event
/// is appended, unless the backlog is full, in which case it is dropped.
pub open spec fn offered(backlog: Seq<DirEvent>, event: DirEvent) -> Seq<DirEvent> {
    if backlog.len() < EVENT_BACKLOG {
        backlog.push(event)
    } else {
        backlog
    }
}

/// Holds the current directory snapshot, which is supplied from outside,
/// and tells subscribers of its changes.
///
/// Each subscriber has a backlog of its own, so one that reads slowly does
/// not hold up the others, nor the publisher: what does not fit in its
/// backlog it misses.
#[derive(Debug)]
pub struct CustomNetDirProvider {
    current: Option<NetworkDirectory>,
    version: u64,
    feeds: Vec<Vec<DirEvent>>,
}

impl CustomNetDirProvider {
    /// The snapshot held, if one has been set.
    pub closed spec fn current(&self) -> Option<NetworkDirectory> {
        self.current
    }

    /// The version of the snapshot held: the number of snapshots that have
    /// been set so far, which stops counting at `u64::MAX`.
    pub closed spec fn spec_version(&self) -> u64 {
        self.version
    }

    /// The events that wait for each subscriber, oldest first.
    pub closed spec fn backlogs(&self) -> Seq<Seq<DirEvent>> {
        self.feeds@.map_values(|feed: Vec<DirEvent>| feed@)
    }

    /// A held snapshot resolves each identity to at most one relay, and no
    /// backlog is longer than `EVENT_BACKLOG`.
    pub open spec fn wf(&self) -> bool {
        &&& self.current() is Some ==> self.current()->Some_0.wf()
        &&& forall|i: int|
            0 <= i < self.backlogs().len() ==> (#[trigger] self.backlogs()[i]).len()
                <= EVENT_BACKLOG
    }

    /// The parameters in effect: those of the snapshot held, else the defaults.
    pub open spec fn spec_params(&self) -> NetParameters {
        match self.current() {
            Some(dir) => dir.spec_params(),
            None => NetParameters::spec_default(),
        }
    }

    /// The backlogs after `event` has been offered to every subscriber.
    pub open spec fn published(backlogs: Seq<Seq<DirEvent>>, event: DirEvent) -> Seq<
        Seq<DirEvent>,
    > {
        backlogs.map_values(|backlog: Seq<DirEvent>| offered(backlog, event))
    }

    /// A holder without a snapshot and without subscribers.
    pub fn new() -> (holder: CustomNetDirProvider)
        ensures
            holder.current() is None,
            holder.spec_version() == 0,
            holder.backlogs() == Seq::<Seq<DirEvent>>::empty(),
            holder.wf(),
    {
        let holder = CustomNetDirProvider { current: None, version: 0, feeds: Vec::new() };
        assert(holder.backlogs() =~= Seq::<Seq<DirEvent>>::empty());
        holder
    }

    /// Replaces the snapshot held with `dir`, and tells every subscriber of
    /// the new consensus.
    pub fn set_netdir(&mut self, dir: NetworkDirectory)
        requires
            old(self).wf(),
            dir.wf(),
        ensures
            final(self).current() == Some(dir),
            final(self).spec_version() == (if old(self).spec_version() < u64::MAX {
                (old(self).spec_version() + 1) as u64
            } else {
                u64::MAX
            }),
            final(self).backlogs() == Self::published(old(self).backlogs(), DirEvent::NewConsensus),
            final(self).wf(),
    {
        self.current = Some(dir);
        if self.version < u64::MAX {
            self.version = self.version + 1;
        }
        assert(self.backlogs() == old(self).backlogs());
        self.publish(DirEvent::NewConsensus);
    }

    /// The version of the snapshot held; 0 while none has been set.
    pub fn version(&self) -> (version: u64)
        ensures
            version == self.spec_version(),
    {
        self.version
    }

    /// Offers `event` to every subscriber. A subscriber whose backlog is
    /// full misses it.
    pub fn publish(&mut self, event: DirEvent)
        requires
            old(self).wf(),
        ensures
            final(self).current() == old(self).current(),
            final(self).spec_version() == old(self).spec_version(),
            final(self).backlogs() == Self::published(old(self).backlogs(), event),
            final(self).wf(),
    {
        let ghost before = self.backlogs();
        let mut i: usize = 0;
        while i < self.feeds.len()
            invariant
                i <= self.feeds@.len(),
                self.current == old(self).current,
                self.version == old(self).version,
                self.backlogs().len() == before.len(),
                before == old(self).backlogs(),
                forall|j: int| 0 <= j < i ==> #[trigger] self.backlogs()[j] == offered(before[j], event),
                forall|j: int| i <= j < before.len() ==> #[trigger] self.backlogs()[j] == before[j],
                forall|j: int| 0 <= j < before.len() ==> (#[trigger] before[j]).len() <= EVENT_BACKLOG,
            decreases self.feeds@.len() - i,
        {
            let ghost feeds_before = self.feeds@;
            if self.feeds[i].len() < EVENT_BACKLOG {
                self.feeds[i].push(event);
            }
            proof {
                assert(feeds_before.len() == before.len());
                assert forall|j: int| 0 <= j < before.len() && j != i implies self.backlogs()[j]
                    == feeds_before[j]@ by {}
                assert forall|j: int| 0 <= j < before.len() implies feeds_before[j]@ == (if j < i {
                    offered(before[j], event)
                } else {
                    before[j]
                }) by {
                    assert(feeds_before[j]@ == feeds_before.map_values(
                        |feed: Vec<DirEvent>| feed@,
                    )[j]);
                }
            }
            i = i + 1;
        }
        assert(self.backlogs() =~= Self::published(before, event));
    }

    /// Adds a subscriber, whose backlog starts empty, and returns its number.
    pub fn events(&mut self) -> (subscriber: usize)
        requires
            old(self).wf(),
        ensures
            subscriber == old(self).backlogs().len(),
            final(self).backlogs() == old(self).backlogs().push(Seq::<DirEvent>::empty()),
            final(self).current() == old(self).current(),
            final(self).spec_version() == old(self).spec_version(),
            final(self).wf(),
    {
        let subscriber = self.feeds.len();
        self.feeds.push(Vec::new());
        assert(self.backlogs() =~= old(self).backlogs().push(Seq::<DirEvent>::empty()));
        subscriber
    }

    /// Takes the oldest event that waits for `subscriber`. `None` if none
    /// waits, or if there is no such subscriber.
    pub fn next_event(&mut self, subscriber: usize) -> (event: Option<DirEvent>)
        requires
            old(self).wf(),
        ensures
            final(self).wf(),
            final(self).current() == old(self).current(),
            final(self).spec_version() == old(self).spec_version(),
            subscriber < old(self).backlogs().len() && old(self).backlogs()[subscriber as int].len()
                > 0 ==> event == Some(old(self).backlogs()[subscriber as int][0]) && final(self).backlogs() == old(self).backlogs().update(
                subscriber as int,
                old(self).backlogs()[subscriber as int].drop_first(),
            ),
            !(subscriber < old(self).backlogs().len() && old(self).backlogs()[subscriber as int].len() > 0) ==> event is None && final(self).backlogs()
                == old(self).backlogs(),
    {
        if subscriber < self.feeds.len() && self.feeds[subscriber].len() > 0 {
            let ghost feeds_before = self.feeds@;
            let event = self.feeds[subscriber].remove(0);
            proof {
                assert(feeds_before[subscriber as int]@ == old(self).backlogs()[subscriber as int]);
                assert(self.feeds@[subscriber as int]@ =~= feeds_before[subscriber as int]@.drop_first());
                assert forall|j: int| 0 <= j < feeds_before.len() && j != subscriber implies self.feeds@[j]
                    == feeds_before[j] by {}
                assert forall|j: int| 0 <= j < feeds_before.len() implies feeds_before[j]@ == old(self).backlogs()[j] by {}
                assert(self.backlogs() =~= old(self).backlogs().update(
                    subscriber as int,
                    old(self).backlogs()[subscriber as int].drop_first(),
                ));
            }
            Some(event)
        } else {
            None
        }
    }

    /// The snapshot held. Fails with `NoDirectoryAvailable` while none has
    /// been set; the holder does not judge the snapshot's age.
    pub fn netdir(&self, timeliness: Timeliness) -> (dir: Result<&NetworkDirectory, CircuitError>)
        ensures
            match self.current() {
                Some(held) => dir is Ok && *dir->Ok_0 == held,
                None => dir == Err::<&NetworkDirectory, CircuitError>(
                    CircuitError::NoDirectoryAvailable,
                ),
            },
    {
        match &self.current {
            Some(held) => Ok(held),
            None => Err(CircuitError::NoDirectoryAvailable),
        }
    }

    /// The parameters in effect: those of the snapshot held, else the defaults.
    pub fn params(&self) -> (params: NetParameters)
        ensures
            params == self.spec_params(),
    {
        match &self.current {
            Some(held) => held.params(),
            None => NetParameters::default(),
        }
    }
}

impl Default for CustomNetDirProvider {
    fn default() -> (holder: CustomNetDirProvider)
        ensures
            holder.current() is None,
            holder.backlogs() == Seq::<Seq<DirEvent>>::empty(),
            holder.wf(),
    {
        CustomNetDirProvider::new()
    }
}

} // verus!
