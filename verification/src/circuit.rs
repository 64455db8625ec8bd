//! Building a circuit hop by hop.
//!
//! The manager decides; the caller acts. `create`, `create_one_hop` and
//! `extend` resolve the relay and ask for a connection to its address. The
//! caller makes it and reports the outcome to `advance`, which says what
//! comes next, until the hop is in place or a step has failed. A later hop
//! is never begun before the one before it is in place.

use vstd::prelude::*;
use crate::channel::{
    has_link, ChannelDecision, ChannelUsage, LaunchOutcome, TorChannelManager, CONNECT_TIMEOUT_SECS,
};
use crate::directory::{lists_identity, NetworkDirectory, RelayDescriptor};
use crate::error::CircuitError;
use crate::identity::{fingerprint_bytes, is_fingerprint, RelayIdentity};
use crate::params::{build_hop_params, standard_circuit_params, CircParameters};

verus! {

/// A relay as a hop of a circuit: where to reach it and how to address it.
#[derive(Debug)]
pub struct CircTarget {
    pub relay_ip: String,
    pub relay_port: u16,
    pub identity: RelayIdentity,
    pub ntor_onion_key: [u8; 32],
}

/// Whether `target` is the relay that `fingerprint` names in `relays`,
/// reached at `relay_ip` and `relay_port`.
pub open spec fn resolves_to(
    target: CircTarget,
    relays: Seq<RelayDescriptor>,
    relay_ip: Seq<char>,
    relay_port: u16,
    fingerprint: Seq<char>,
) -> bool {
    &&& target.relay_ip@ == relay_ip
    &&& target.relay_port == relay_port
    &&& target.identity@ == fingerprint_bytes(fingerprint)
    &&& exists|i: int|
        0 <= i < relays.len() && (#[trigger] relays[i]).identity@ == target.identity@
            && relays[i].ntor_onion_key == target.ntor_onion_key
}

/// The error, if any, with which a relay fails to resolve. The directory is
/// looked for first, then the fingerprint is read, then the relay is looked up.
pub open spec fn resolution_error(dir: Option<NetworkDirectory>, fingerprint: Seq<char>) -> Option<
    CircuitError,
> {
    match dir {
        None => Some(CircuitError::NoDirectoryAvailable),
        Some(dir) => if !is_fingerprint(fingerprint) {
            Some(CircuitError::InvalidFingerprint)
        } else if !lists_identity(dir@, fingerprint_bytes(fingerprint)) {
            Some(CircuitError::RelayNotFound)
        } else {
            None
        },
    }
}

/// A circuit: its hops, in the order in which they were added.
#[derive(Debug)]
pub struct CircuitHandle {
    hops: Vec<RelayIdentity>,
}

impl View for CircuitHandle {
    type V = Seq<Seq<u8>>;

    /// The identities of the hops, first hop first.
    closed spec fn view(&self) -> Seq<Seq<u8>> {
        self.hops@.map_values(|hop: RelayIdentity| hop@)
    }
}

impl CircuitHandle {
    fn first_hop(hop: RelayIdentity) -> (handle: CircuitHandle)
        ensures
            handle@ == seq![hop@],
    {
        let mut hops: Vec<RelayIdentity> = Vec::new();
        hops.push(hop);
        let handle = CircuitHandle { hops };
        assert(handle@ =~= seq![hop@]);
        handle
    }

    fn append(&mut self, hop: RelayIdentity)
        ensures
            final(self)@ == old(self)@.push(hop@),
    {
        self.hops.push(hop);
        assert(self@ =~= old(self)@.push(hop@));
    }

    /// Number of hops.
    pub fn hop_count(&self) -> (n: usize)
        ensures
            n == self@.len(),
    {
        self.hops.len()
    }

    /// The `index`-th hop, counted from 0.
    pub fn hop(&self, index: usize) -> (hop: Option<RelayIdentity>)
        ensures
            index < self@.len() ==> hop is Some && hop->Some_0@ == self@[index as int],
            index >= self@.len() ==> hop is None,
    {
        if index < self.hops.len() {
            Some(self.hops[index])
        } else {
            None
        }
    }

    /// A second handle on the same hops.
    pub fn duplicate(&self) -> (copy: CircuitHandle)
        ensures
            copy@ == self@,
    {
        let mut hops: Vec<RelayIdentity> = Vec::new();
        let mut i: usize = 0;
        while i < self.hops.len()
            invariant
                i <= self.hops@.len(),
                hops@ == self.hops@.take(i as int),
            decreases self.hops@.len() - i,
        {
            hops.push(self.hops[i]);
            assert(self.hops@.take(i + 1) =~= self.hops@.take(i as int).push(self.hops@[i as int]));
            i = i + 1;
        }
        assert(self.hops@.take(i as int) =~= self.hops@);
        CircuitHandle { hops }
    }
}

/// Which kind of hop is being built.
#[derive(Clone, Copy, Debug, PartialEq, Eq, Structural)]
pub enum HopKind {
    /// The first hop of a circuit that the manager keeps.
    FirstHop,
    /// The only hop of a one-hop circuit that is handed to the caller and
    /// not kept.
    OneHop,
    /// One more hop on the circuit that the manager keeps.
    Extension,
}

/// What a pending hop is waiting for.
#[derive(Clone, Copy, Debug, PartialEq, Eq, Structural)]
pub enum BuildStage {
    AwaitConnect,
    AwaitChannel,
    AwaitCircuit,
    AwaitHandshake,
}

/// The handshake by which a hop's keys are agreed.
#[derive(Clone, Copy, Debug, PartialEq, Eq, Structural)]
pub enum Handshake {
    /// Without public-key cryptography; for a one-hop circuit only.
    Fast,
    /// Keyed by the relay's onion-handshake public key.
    Ntor,
}

/// What the caller has to do next.
#[derive(Clone, Copy, Debug, PartialEq, Eq, Structural)]
pub enum CircuitAction {
    /// Connect to the address of the pending target, within the given
    /// number of seconds.
    Connect { timeout_secs: u64 },
    /// Get a link to the pending target, as the decision says.
    ObtainChannel(ChannelDecision),
    /// Open a circuit without hops on that link and start its dispatch loop.
    OpenCircuit,
    /// Perform the first-hop handshake with the pending target.
    CreateFirstHop(Handshake),
    /// Perform the extension handshake with the pending target, through
    /// the circuit as it stands.
    ExtendCircuit,
}

/// How the action that was asked for ended.
#[derive(Clone, Copy, Debug, PartialEq, Eq, Structural)]
pub enum StepOutcome {
    Done,
    /// The address of the target could not be understood.
    BadAddress,
    TimedOut,
    Failed,
}

/// The hop that is being built.
#[derive(Debug)]
pub struct PendingHop {
    pub kind: HopKind,
    pub stage: BuildStage,
    pub target: CircTarget,
    pub params: CircParameters,
}

/// What `advance` reports when a step has succeeded.
#[derive(Debug)]
pub enum Progress {
    /// The hop is not in place yet: do this next.
    Next(CircuitAction),
    /// The hop is in place; this is the circuit.
    Built(CircuitHandle),
}

/// A failed step, with the relay it was about: its identity and the
/// address it was to be reached at.
#[derive(Debug)]
pub struct BuildFailure {
    pub error: CircuitError,
    pub target: Option<CircTarget>,
}

/// Where a circuit build stands. A hop that is in place makes the circuit
/// ready at once, so a circuit whose first hop or whose extension has just
/// been established is `Ready`.
#[derive(Clone, Copy, Debug, PartialEq, Eq, Structural)]
pub enum CircuitState {
    NoCircuit,
    FirstHopPending,
    ExtendPending,
    Ready,
}

/// The error that a failed step is reported as. Only the connection tells
/// a bad address and a timeout from other failures.
pub open spec fn stage_error(stage: BuildStage, outcome: StepOutcome) -> CircuitError {
    match stage {
        BuildStage::AwaitConnect => match outcome {
            StepOutcome::BadAddress => CircuitError::InvalidAddress,
            StepOutcome::TimedOut => CircuitError::ConnectTimeout,
            _ => CircuitError::ConnectFailed,
        },
        BuildStage::AwaitChannel => CircuitError::ChannelLaunchFailed,
        BuildStage::AwaitCircuit => CircuitError::CircuitLaunchFailed,
        BuildStage::AwaitHandshake => CircuitError::HandshakeFailed,
    }
}

/// Whether `before` is the beginning of `after`.
pub open spec fn is_prefix_of(before: Seq<Seq<u8>>, after: Seq<Seq<u8>>) -> bool {
    before.len() <= after.len() && after.subrange(0, before.len() as int) == before
}

/// Builds circuits through relays that the caller names by fingerprint.
#[derive(Debug)]
pub struct TorCircuitManager {
    tor_chan_mgr: TorChannelManager,
    circ: Option<CircuitHandle>,
    pending: Option<PendingHop>,
}

impl TorCircuitManager {
    /// The circuit most recently built or extended.
    pub closed spec fn circuit(&self) -> Option<CircuitHandle> {
        self.circ
    }

    /// The hop that is being built.
    pub closed spec fn pending(&self) -> Option<PendingHop> {
        self.pending
    }

    /// The links and the directory.
    pub closed spec fn channels(&self) -> TorChannelManager {
        self.tor_chan_mgr
    }

    /// The directory snapshot, if one has been set.
    pub open spec fn directory(&self) -> Option<NetworkDirectory> {
        self.channels().provider().current()
    }

    /// The hops of the circuit held; none while there is no circuit.
    pub open spec fn hops(&self) -> Seq<Seq<u8>> {
        match self.circuit() {
            Some(circ) => circ@,
            None => Seq::empty(),
        }
    }

    /// A hop can only be added to a circuit that exists, and an extension
    /// needs neither a new link nor a new circuit.
    pub open spec fn wf(&self) -> bool {
        &&& self.channels().wf()
        &&& self.circuit() is Some ==> self.hops().len() >= 1
        &&& self.pending() is Some && self.pending()->Some_0.kind == HopKind::Extension ==> {
            &&& self.circuit() is Some
            &&& self.pending()->Some_0.stage == BuildStage::AwaitConnect
                || self.pending()->Some_0.stage == BuildStage::AwaitHandshake
        }
    }

    /// Where the build stands.
    pub open spec fn spec_state(&self) -> CircuitState {
        match self.pending() {
            Some(hop) => if hop.kind == HopKind::Extension {
                CircuitState::ExtendPending
            } else {
                CircuitState::FirstHopPending
            },
            None => if self.circuit() is Some {
                CircuitState::Ready
            } else {
                CircuitState::NoCircuit
            },
        }
    }

    /// A manager without directory, links or circuit.
    pub fn new() -> (manager: TorCircuitManager)
        ensures
            manager.wf(),
            manager.circuit() is None,
            manager.pending() is None,
            manager.directory() is None,
            manager.channels().links()@ == Seq::<RelayIdentity>::empty(),
    {
        TorCircuitManager { tor_chan_mgr: TorChannelManager::new(), circ: None, pending: None }
    }

    /// Takes `netdir` as the current directory snapshot. Circuit and links
    /// stay as they are.
    pub fn init(&mut self, netdir: NetworkDirectory)
        requires
            old(self).wf(),
            netdir.wf(),
        ensures
            final(self).wf(),
            final(self).directory() == Some(netdir),
            final(self).circuit() == old(self).circuit(),
            final(self).pending() == old(self).pending(),
            final(self).channels().links() == old(self).channels().links(),
    {
        self.tor_chan_mgr.init(netdir);
    }

    /// Where the build stands.
    pub fn state(&self) -> (state: CircuitState)
        ensures
            state == self.spec_state(),
    {
        match &self.pending {
            Some(hop) => match hop.kind {
                HopKind::Extension => CircuitState::ExtendPending,
                _ => CircuitState::FirstHopPending,
            },
            None => if self.circ.is_some() {
                CircuitState::Ready
            } else {
                CircuitState::NoCircuit
            },
        }
    }

    /// The circuit most recently built or extended; `NoCircuit` before the
    /// first one is built.
    pub fn get_circ(&self) -> (circ: Result<CircuitHandle, CircuitError>)
        ensures
            self.circuit() is None ==> circ == Err::<CircuitHandle, CircuitError>(
                CircuitError::NoCircuit,
            ),
            self.circuit() is Some ==> circ is Ok && circ->Ok_0@ == self.hops(),
    {
        match &self.circ {
            Some(circ) => Ok(circ.duplicate()),
            None => Err(CircuitError::NoCircuit),
        }
    }

    /// The target of the hop that is being built.
    pub fn pending_target(&self) -> (target: Option<&CircTarget>)
        ensures
            self.pending() is None ==> target is None,
            self.pending() is Some ==> target is Some && *target->Some_0
                == self.pending()->Some_0.target,
    {
        match &self.pending {
            Some(hop) => Some(&hop.target),
            None => None,
        }
    }

    /// The handshake parameters of the hop that is being built.
    pub fn pending_params(&self) -> (params: Option<CircParameters>)
        ensures
            self.pending() is None ==> params is None,
            self.pending() is Some ==> params == Some(self.pending()->Some_0.params),
    {
        match &self.pending {
            Some(hop) => Some(hop.params),
            None => None,
        }
    }

    /// The link table and the directory holder.
    pub fn chan_mgr(&self) -> (channels: &TorChannelManager)
        ensures
            *channels == self.channels(),
    {
        &self.tor_chan_mgr
    }

    /// Resolves a relay: finds in the directory the relay that
    /// `relay_fingerprint` names and pairs its keys with the address given.
    ///
    /// Fails with `NoDirectoryAvailable` while no snapshot is set, with
    /// `InvalidFingerprint` if the fingerprint is not 40 hex digits once
    /// whitespace is removed, and with `RelayNotFound` if the snapshot lists
    /// no relay of that identity.
    pub fn circ_target_from_relay(
        &self,
        relay_ip: &str,
        relay_port: u16,
        relay_fingerprint: &str,
    ) -> (target: Result<CircTarget, CircuitError>)
        ensures
            match resolution_error(self.directory(), relay_fingerprint@) {
                Some(error) => target == Err::<CircTarget, CircuitError>(error),
                None => target is Ok && resolves_to(
                    target->Ok_0,
                    self.directory()->Some_0@,
                    relay_ip@,
                    relay_port,
                    relay_fingerprint@,
                ),
            },
    {
        let netdir = match self.tor_chan_mgr.netdir() {
            Ok(netdir) => netdir,
            Err(error) => {
                return Err(error);
            },
        };
        let identity = match RelayIdentity::from_fingerprint(relay_fingerprint) {
            Ok(identity) => identity,
            Err(error) => {
                return Err(error);
            },
        };
        match netdir.by_id(&identity) {
            Some(relay) => {
                let target = CircTarget {
                    relay_ip: relay_ip.to_owned(),
                    relay_port,
                    identity,
                    ntor_onion_key: relay.ntor_onion_key,
                };
                proof {
                    let i = choose|i: int| 0 <= i < netdir@.len() && netdir@[i] == *relay;
                    assert(netdir@[i].identity@ == target.identity@);
                }
                Ok(target)
            },
            None => Err(CircuitError::RelayNotFound),
        }
    }

    /// Begins a hop of the given kind towards the relay named.
    fn begin(
        &mut self,
        kind: HopKind,
        relay_ip: &str,
        relay_port: u16,
        relay_fingerprint: &str,
    ) -> (action: Result<CircuitAction, CircuitError>)
        requires
            old(self).wf(),
            kind == HopKind::Extension ==> old(self).circuit() is Some,
        ensures
            final(self).wf(),
            final(self).circuit() == old(self).circuit(),
            final(self).channels() == old(self).channels(),
            action == old(self).spec_begin(relay_fingerprint@),
            action is Err ==> *final(self) == *old(self),
            action is Ok ==> {
                &&& final(self).pending() is Some
                &&& final(self).pending()->Some_0.kind == kind
                &&& final(self).pending()->Some_0.stage == BuildStage::AwaitConnect
                &&& final(self).pending()->Some_0.params == (CircParameters {
                    extend_by_ed25519_id: true,
                    ccontrol: standard_circuit_params(),
                })
                &&& resolves_to(
                    final(self).pending()->Some_0.target,
                    old(self).directory()->Some_0@,
                    relay_ip@,
                    relay_port,
                    relay_fingerprint@,
                )
            },
    {
        if self.pending.is_some() {
            return Err(CircuitError::BuildInProgress);
        }
        let target = match self.circ_target_from_relay(relay_ip, relay_port, relay_fingerprint) {
            Ok(target) => target,
            Err(error) => {
                return Err(error);
            },
        };
        let params = build_hop_params();
        self.pending = Some(PendingHop { kind, stage: BuildStage::AwaitConnect, target, params });
        Ok(CircuitAction::Connect { timeout_secs: CONNECT_TIMEOUT_SECS })
    }

    /// What beginning a hop returns: an error if a hop is pending already or
    /// the relay does not resolve, else the request to connect to it.
    pub open spec fn spec_begin(&self, fingerprint: Seq<char>) -> Result<
        CircuitAction,
        CircuitError,
    > {
        if self.pending() is Some {
            Err(CircuitError::BuildInProgress)
        } else {
            match resolution_error(self.directory(), fingerprint) {
                Some(error) => Err(error),
                None => Ok(CircuitAction::Connect { timeout_secs: CONNECT_TIMEOUT_SECS }),
            }
        }
    }

    /// Begins a one-hop circuit to the relay named, with the fast handshake.
    /// The circuit, once built, is handed to the caller and not kept.
    ///
    /// Returns what `spec_begin` says. On an error nothing changes. Otherwise
    /// the hop is pending, and the circuit held stays as it is until the
    /// hop is in place.
    pub fn create_one_hop(&mut self, relay_ip: &str, relay_port: u16, relay_fingerprint: &str) -> (action:
        Result<CircuitAction, CircuitError>)
        requires
            old(self).wf(),
        ensures
            final(self).wf(),
            final(self).circuit() == old(self).circuit(),
            final(self).channels() == old(self).channels(),
            action == old(self).spec_begin(relay_fingerprint@),
            action is Err ==> *final(self) == *old(self),
            action is Ok ==> {
                &&& final(self).pending() is Some
                &&& final(self).pending()->Some_0.kind == HopKind::OneHop
                &&& final(self).pending()->Some_0.stage == BuildStage::AwaitConnect
                &&& final(self).pending()->Some_0.params.ccontrol == standard_circuit_params()
                &&& resolves_to(
                    final(self).pending()->Some_0.target,
                    old(self).directory()->Some_0@,
                    relay_ip@,
                    relay_port,
                    relay_fingerprint@,
                )
            },
    {
        self.begin(HopKind::OneHop, relay_ip, relay_port, relay_fingerprint)
    }

    /// Begins a new circuit whose first hop is the relay named.
    ///
    /// Returns what `spec_begin` says. On an error nothing changes. Otherwise
    /// the hop is pending, and the circuit held stays as it is until the
    /// hop is in place.
    pub fn create(&mut self, relay_ip: &str, relay_port: u16, relay_fingerprint: &str) -> (action:
        Result<CircuitAction, CircuitError>)
        requires
            old(self).wf(),
        ensures
            final(self).wf(),
            final(self).circuit() == old(self).circuit(),
            final(self).channels() == old(self).channels(),
            action == old(self).spec_begin(relay_fingerprint@),
            action is Err ==> *final(self) == *old(self),
            action is Ok ==> {
                &&& final(self).pending() is Some
                &&& final(self).pending()->Some_0.kind == HopKind::FirstHop
                &&& final(self).pending()->Some_0.stage == BuildStage::AwaitConnect
                &&& final(self).pending()->Some_0.params.ccontrol == standard_circuit_params()
                &&& resolves_to(
                    final(self).pending()->Some_0.target,
                    old(self).directory()->Some_0@,
                    relay_ip@,
                    relay_port,
                    relay_fingerprint@,
                )
            },
    {
        self.begin(HopKind::FirstHop, relay_ip, relay_port, relay_fingerprint)
    }

    /// Begins one more hop, to the relay named, on the circuit held.
    ///
    /// Without a circuit this is `NoCircuitToExtend`; otherwise it returns
    /// what `spec_begin` says. On an error nothing changes. Otherwise the
    /// hop is pending, and the circuit stays as it is until the hop is in
    /// place.
    pub fn extend(&mut self, relay_ip: &str, relay_port: u16, relay_fingerprint: &str) -> (action:
        Result<CircuitAction, CircuitError>)
        requires
            old(self).wf(),
        ensures
            final(self).wf(),
            final(self).circuit() == old(self).circuit(),
            final(self).channels() == old(self).channels(),
            old(self).circuit() is None ==> action == Err::<CircuitAction, CircuitError>(
                CircuitError::NoCircuitToExtend,
            ),
            old(self).circuit() is Some ==> action == old(self).spec_begin(relay_fingerprint@),
            action is Err ==> *final(self) == *old(self),
            action is Ok ==> {
                &&& final(self).pending() is Some
                &&& final(self).pending()->Some_0.kind == HopKind::Extension
                &&& final(self).pending()->Some_0.stage == BuildStage::AwaitConnect
                &&& final(self).pending()->Some_0.params.ccontrol == standard_circuit_params()
                &&& resolves_to(
                    final(self).pending()->Some_0.target,
                    old(self).directory()->Some_0@,
                    relay_ip@,
                    relay_port,
                    relay_fingerprint@,
                )
            },
    {
        if self.circ.is_none() {
            return Err(CircuitError::NoCircuitToExtend);
        }
        self.begin(HopKind::Extension, relay_ip, relay_port, relay_fingerprint)
    }

    /// What to do once the target has been connected to: an extension goes
    /// on to its handshake, any other hop needs a link first.
    pub open spec fn after_connect(&self, hop: PendingHop) -> (BuildStage, CircuitAction) {
        if hop.kind == HopKind::Extension {
            (BuildStage::AwaitHandshake, CircuitAction::ExtendCircuit)
        } else if has_link(self.channels().links()@, hop.target.identity@) {
            (BuildStage::AwaitChannel, CircuitAction::ObtainChannel(ChannelDecision::Reuse))
        } else {
            (
                BuildStage::AwaitChannel,
                CircuitAction::ObtainChannel(
                    ChannelDecision::Launch { connect_timeout_secs: CONNECT_TIMEOUT_SECS },
                ),
            )
        }
    }

    /// How the outcome of a step changes the manager, and what is reported.
    ///
    /// With no hop pending the report is `UnexpectedEvent` and nothing
    /// changes. A step that did not succeed ends the build with the error of
    /// its stage and the target it was about; the circuit held stays as it
    /// was, with the hops it had. After the connection a first hop needs a
    /// link, an extension goes on to its handshake. A link that was obtained
    /// is entered in the link table; a circuit that was opened is followed
    /// by the handshake; a handshake that succeeded puts the hop in place: a
    /// first hop starts a new circuit, which replaces the one held; an
    /// extension is appended to the circuit held; a one-hop circuit is
    /// reported and the one held stays.
    pub open spec fn advanced(
        self,
        outcome: StepOutcome,
        post: TorCircuitManager,
        progress: Result<Progress, BuildFailure>,
    ) -> bool {
        &&& post.channels().provider() == self.channels().provider()
        &&& self.pending() is None ==> {
            &&& progress is Err
            &&& progress->Err_0.error == CircuitError::UnexpectedEvent
            &&& progress->Err_0.target is None
            &&& post.pending() is None
            &&& post.circuit() == self.circuit()
            &&& post.channels() == self.channels()
        }
        &&& self.pending() is Some && outcome != StepOutcome::Done ==> {
            &&& progress is Err
            &&& progress->Err_0.error == stage_error(self.pending()->Some_0.stage, outcome)
            &&& progress->Err_0.target == Some(self.pending()->Some_0.target)
            &&& post.pending() is None
            &&& post.circuit() == self.circuit()
            &&& post.channels() == self.channels()
        }
        &&& self.pending() is Some && outcome == StepOutcome::Done ==> {
            let hop = self.pending()->Some_0;
            match hop.stage {
                BuildStage::AwaitConnect => {
                    &&& progress is Ok
                    &&& progress->Ok_0 == Progress::Next(self.after_connect(hop).1)
                    &&& post.pending() == Some(
                        PendingHop { stage: self.after_connect(hop).0, ..hop },
                    )
                    &&& post.circuit() == self.circuit()
                    &&& post.channels() == self.channels()
                },
                BuildStage::AwaitChannel => {
                    &&& progress is Ok
                    &&& progress->Ok_0 == Progress::Next(CircuitAction::OpenCircuit)
                    &&& post.pending() == Some(
                        PendingHop { stage: BuildStage::AwaitCircuit, ..hop },
                    )
                    &&& post.circuit() == self.circuit()
                    &&& post.channels().links()@ == (if has_link(
                        self.channels().links()@,
                        hop.target.identity@,
                    ) {
                        self.channels().links()@
                    } else {
                        self.channels().links()@.push(hop.target.identity)
                    })
                },
                BuildStage::AwaitCircuit => {
                    &&& progress is Ok
                    &&& progress->Ok_0 == Progress::Next(
                        CircuitAction::CreateFirstHop(
                            if hop.kind == HopKind::OneHop {
                                Handshake::Fast
                            } else {
                                Handshake::Ntor
                            },
                        ),
                    )
                    &&& post.pending() == Some(
                        PendingHop { stage: BuildStage::AwaitHandshake, ..hop },
                    )
                    &&& post.circuit() == self.circuit()
                    &&& post.channels() == self.channels()
                },
                BuildStage::AwaitHandshake => {
                    &&& progress is Ok
                    &&& progress->Ok_0 is Built
                    &&& post.pending() is None
                    &&& post.channels() == self.channels()
                    &&& match hop.kind {
                        HopKind::FirstHop => {
                            &&& progress->Ok_0->Built_0@ == seq![hop.target.identity@]
                            &&& post.circuit() is Some
                            &&& post.hops() == seq![hop.target.identity@]
                        },
                        HopKind::OneHop => {
                            &&& progress->Ok_0->Built_0@ == seq![hop.target.identity@]
                            &&& post.circuit() == self.circuit()
                        },
                        HopKind::Extension => {
                            &&& progress->Ok_0->Built_0@ == self.hops().push(
                                hop.target.identity@,
                            )
                            &&& post.circuit() is Some
                            &&& post.hops() == self.hops().push(
                                hop.target.identity@,
                            )
                        },
                    }
                },
            }
        }
    }

    /// An extension only ever appends: whatever the outcome of a step of an
    /// extension, the hops that were there stay, in their order, at the
    /// beginning of the circuit. A step that fails leaves the circuit with
    /// the hops it had; the handshake that succeeds adds one hop, and no other
    /// step adds any.
    pub proof fn law_extension_appends(
        self,
        outcome: StepOutcome,
        post: TorCircuitManager,
        progress: Result<Progress, BuildFailure>,
    )
        requires
            self.wf(),
            self.spec_state() == CircuitState::ExtendPending,
            self.advanced(outcome, post, progress),
        ensures
            is_prefix_of(self.hops(), post.hops()),
            progress is Err ==> post.hops() == self.hops(),
            progress is Ok && progress->Ok_0 is Next ==> post.hops() == self.hops(),
            progress is Ok && progress->Ok_0 is Built ==> post.hops().len() == self.hops().len()
                + 1 && progress->Ok_0->Built_0@ == post.hops(),
    {
        assert(self.hops().subrange(0, self.hops().len() as int) =~= self.hops());
        if progress is Ok && progress->Ok_0 is Built {
            let hop = self.pending()->Some_0;
            assert(self.hops().push(hop.target.identity@).subrange(0, self.hops().len() as int)
                =~= self.hops());
        }
    }

    /// A step never leaves a circuit without hops, and never changes the
    /// circuit held except by putting a hop in place: while it reports that
    /// more is to be done, or that the step failed, the circuit is the one
    /// that was held before.
    pub proof fn law_only_a_hop_in_place_changes_the_circuit(
        self,
        outcome: StepOutcome,
        post: TorCircuitManager,
        progress: Result<Progress, BuildFailure>,
    )
        requires
            self.wf(),
            self.advanced(outcome, post, progress),
        ensures
            !(progress is Ok && progress->Ok_0 is Built) ==> post.circuit() == self.circuit(),
            progress is Ok && progress->Ok_0 is Built ==> progress->Ok_0->Built_0@.len() >= 1,
            progress is Err ==> post.pending() is None,
    {
    }

    /// Takes the outcome of the action that was asked for last, and says
    /// what comes next, as `advanced` describes.
    pub fn advance(&mut self, outcome: StepOutcome) -> (progress: Result<Progress, BuildFailure>)
        requires
            old(self).wf(),
        ensures
            final(self).wf(),
            old(self).advanced(outcome, *final(self), progress),
    {
        let hop = match self.pending.take() {
            Some(hop) => hop,
            None => {
                return Err(BuildFailure { error: CircuitError::UnexpectedEvent, target: None });
            },
        };
        match outcome {
            StepOutcome::Done => {},
            _ => {
                let error = match hop.stage {
                    BuildStage::AwaitConnect => match outcome {
                        StepOutcome::BadAddress => CircuitError::InvalidAddress,
                        StepOutcome::TimedOut => CircuitError::ConnectTimeout,
                        _ => CircuitError::ConnectFailed,
                    },
                    BuildStage::AwaitChannel => CircuitError::ChannelLaunchFailed,
                    BuildStage::AwaitCircuit => CircuitError::CircuitLaunchFailed,
                    BuildStage::AwaitHandshake => CircuitError::HandshakeFailed,
                };
                return Err(BuildFailure { error, target: Some(hop.target) });
            },
        }
        match hop.stage {
            BuildStage::AwaitConnect => {
                let (stage, action) = match hop.kind {
                    HopKind::Extension => (BuildStage::AwaitHandshake, CircuitAction::ExtendCircuit),
                    _ => (
                        BuildStage::AwaitChannel,
                        CircuitAction::ObtainChannel(
                            self.tor_chan_mgr.get_chanmgr().get_or_launch(
                                &hop.target.identity,
                                ChannelUsage::UserTraffic,
                            ),
                        ),
                    ),
                };
                self.pending = Some(
                    PendingHop { kind: hop.kind, stage, target: hop.target, params: hop.params },
                );
                Ok(Progress::Next(action))
            },
            BuildStage::AwaitChannel => {
                let _ = self.tor_chan_mgr.chanmgr_mut().launch_finished(
                    &hop.target.identity,
                    LaunchOutcome::Established,
                );
                self.pending = Some(
                    PendingHop {
                        kind: hop.kind,
                        stage: BuildStage::AwaitCircuit,
                        target: hop.target,
                        params: hop.params,
                    },
                );
                Ok(Progress::Next(CircuitAction::OpenCircuit))
            },
            BuildStage::AwaitCircuit => {
                let handshake = match hop.kind {
                    HopKind::OneHop => Handshake::Fast,
                    _ => Handshake::Ntor,
                };
                self.pending = Some(
                    PendingHop {
                        kind: hop.kind,
                        stage: BuildStage::AwaitHandshake,
                        target: hop.target,
                        params: hop.params,
                    },
                );
                Ok(Progress::Next(CircuitAction::CreateFirstHop(handshake)))
            },
            BuildStage::AwaitHandshake => match hop.kind {
                HopKind::FirstHop => {
                    let circ = CircuitHandle::first_hop(hop.target.identity);
                    let built = circ.duplicate();
                    self.circ = Some(circ);
                    Ok(Progress::Built(built))
                },
                HopKind::OneHop => Ok(Progress::Built(CircuitHandle::first_hop(hop.target.identity))),
                HopKind::Extension => {
                    let mut circ = match self.circ.take() {
                        Some(circ) => circ,
                        None => CircuitHandle { hops: Vec::new() },
                    };
                    circ.append(hop.target.identity);
                    let built = circ.duplicate();
                    self.circ = Some(circ);
                    Ok(Progress::Built(built))
                },
            },
        }
    }
}

} // verus!
