//! Connecting to onion services: the relay path, the stream preferences and
//! the trust policy of the TLS overlay.

use vstd::prelude::*;
use crate::directory::{lists_identity, IpAddress, NetworkDirectory, RelayAddress};
use crate::error::CircuitError;
use crate::flags::{u32_to_relay_flags, RelayFlags};
use crate::identity::{fingerprint_bytes, is_fingerprint, RelayIdentity};
use crate::selector::{select_relays, selected_fingerprints, texts};
use crate::text::chars_of;

verus! {

/// The port on which a TLS session is layered over the stream unasked.
pub const HTTPS_PORT: u16 = 443;

/// The top-level suffix of onion addresses.
pub open spec fn onion_suffix() -> Seq<char> {
    seq!['.', 'o', 'n', 'i', 'o', 'n']
}

/// Whether `name` ends in the onion suffix.
pub open spec fn is_onion_name(name: Seq<char>) -> bool {
    name.len() >= 6 && name.subrange(name.len() - 6, name.len() as int) == onion_suffix()
}

/// Whether `name` ends in the onion suffix.
pub fn ends_with_onion(name: &str) -> (yes: bool)
    ensures
        yes == is_onion_name(name@),
{
    let chars = chars_of(name);
    let n: usize = chars.len();
    if n < 6 {
        return false;
    }
    let start: usize = n - 6;
    let yes = chars[start] == '.' && chars[start + 1] == 'o' && chars[start + 2] == 'n'
        && chars[start + 3] == 'i' && chars[start + 4] == 'o' && chars[start + 5] == 'n';
    proof {
        let tail = name@.subrange(n - 6, n as int);
        if yes {
            assert(tail =~= onion_suffix());
        } else {
            assert(tail[0] == name@[start as int]);
            assert(tail[1] == name@[start + 1]);
            assert(tail[2] == name@[start + 2]);
            assert(tail[3] == name@[start + 3]);
            assert(tail[4] == name@[start + 4]);
            assert(tail[5] == name@[start + 5]);
        }
    }
    yes
}

/// The name that a TLS session is opened for.
#[derive(Debug)]
pub enum ServerName {
    DnsName(String),
    IpAddress(IpAddress),
}

/// The token that stands for a certificate that was accepted.
#[derive(Clone, Copy, Debug, PartialEq, Eq, Structural)]
pub struct ServerCertVerified {}

/// Verifies server certificates for the TLS overlay. An onion address
/// authenticates itself, so under an onion name every certificate is
/// accepted; under any other name none is.
#[derive(Clone, Copy, Debug, PartialEq, Eq, Structural)]
pub struct OnionCertificateVerifier {}

impl OnionCertificateVerifier {
    /// The names under which certificates are accepted: DNS names that end
    /// in the onion suffix.
    pub open spec fn trusts(server_name: ServerName) -> bool {
        match server_name {
            ServerName::DnsName(name) => is_onion_name(name@),
            ServerName::IpAddress(_) => false,
        }
    }

    /// Decides on a server's certificate. Only `server_name` counts: the
    /// certificate, its chain and the stapled response are not looked at.
    pub fn verify_server_cert(
        &self,
        end_entity: &[u8],
        intermediates: &Vec<Vec<u8>>,
        server_name: &ServerName,
        ocsp_response: &[u8],
    ) -> (verdict: Result<ServerCertVerified, CircuitError>)
        ensures
            Self::trusts(*server_name) ==> verdict == Ok::<ServerCertVerified, CircuitError>(
                ServerCertVerified {  },
            ),
            !Self::trusts(*server_name) ==> verdict == Err::<ServerCertVerified, CircuitError>(
                CircuitError::CertificateRejected,
            ),
    {
        match server_name {
            ServerName::DnsName(name) => {
                if ends_with_onion(name.as_str()) {
                    return Ok(ServerCertVerified {  });
                }
            },
            ServerName::IpAddress(_) => {},
        }
        Err(CircuitError::CertificateRejected)
    }
}

/// The relays of a pinned path, by role.
#[derive(Clone, Copy, Debug)]
pub struct PinnedPath {
    pub guard: RelayIdentity,
    pub middle: RelayIdentity,
    pub exit: RelayIdentity,
}

impl PinnedPath {
    /// The identities of the path in the order in which the circuit goes
    /// through them.
    pub open spec fn spec_hops(self) -> Seq<Seq<u8>> {
        seq![self.guard@, self.middle@, self.exit@]
    }

    /// The `index`-th relay of the path: 0 is the guard, 1 the middle, 2
    /// the exit.
    pub fn hop(&self, index: usize) -> (hop: Option<RelayIdentity>)
        ensures
            index < 3 ==> hop is Some && hop->Some_0@ == self.spec_hops()[index as int],
            index >= 3 ==> hop is None,
    {
        if index == 0 {
            Some(self.guard)
        } else if index == 1 {
            Some(self.middle)
        } else if index == 2 {
            Some(self.exit)
        } else {
            None
        }
    }
}

/// How the relays of a circuit are chosen.
#[derive(Clone, Copy, Debug)]
pub enum PathChoice {
    /// By the default policy.
    Random,
    /// These three, extended in this order.
    Pinned(PinnedPath),
}

/// What is asked of the stream to the service.
#[derive(Clone, Copy, Debug, PartialEq, Eq, Structural)]
pub struct StreamPrefs {
    pub connect_to_onion_services: bool,
    pub ipv6_preferred: bool,
}

/// Everything the caller needs to open the stream.
#[derive(Debug)]
pub struct ConnectPlan {
    pub path: PathChoice,
    pub hs_addr: String,
    pub hs_port: u16,
    pub prefs: StreamPrefs,
}

/// What `init` asks of the caller.
#[derive(Clone, Copy, Debug, PartialEq, Eq, Structural)]
pub enum InitAction {
    /// The cached directory is in use; nothing is left to do.
    Ready,
    /// There was no usable cached directory: fetch one and hand it to
    /// `set_directory`.
    Bootstrap,
}

/// A custom path is in force when exactly three fingerprints are set.
pub open spec fn path_is_pinned(relay_ids: Seq<String>) -> bool {
    relay_ids.len() == 3
}

/// The error, if any, of the first fingerprint of a pinned path that is
/// malformed or names no relay of the directory.
pub open spec fn pinned_path_error(relay_ids: Seq<String>, dir: NetworkDirectory) -> Option<
    CircuitError,
>
    recommends
        relay_ids.len() == 3,
{
    if hop_error(relay_ids[0]@, dir) is Some {
        hop_error(relay_ids[0]@, dir)
    } else if hop_error(relay_ids[1]@, dir) is Some {
        hop_error(relay_ids[1]@, dir)
    } else {
        hop_error(relay_ids[2]@, dir)
    }
}

/// The error, if any, with which one fingerprint of a path is refused.
pub open spec fn hop_error(fingerprint: Seq<char>, dir: NetworkDirectory) -> Option<CircuitError> {
    if !is_fingerprint(fingerprint) {
        Some(CircuitError::InvalidFingerprint)
    } else if !lists_identity(dir@, fingerprint_bytes(fingerprint)) {
        Some(CircuitError::RelayNotFound)
    } else {
        None
    }
}

/// Connects to onion services, along a random path or along one that the
/// operator has pinned.
#[derive(Debug)]
pub struct TorHSConnector {
    directory: Option<NetworkDirectory>,
    custom_path: Vec<String>,
}

impl TorHSConnector {
    /// The directory in use; none before `init`.
    pub closed spec fn directory(&self) -> Option<NetworkDirectory> {
        self.directory
    }

    /// The fingerprints that were set as custom path.
    pub closed spec fn custom_path(&self) -> Seq<String> {
        self.custom_path@
    }

    pub open spec fn wf(&self) -> bool {
        self.directory() is Some ==> self.directory()->Some_0.wf()
    }

    /// The error, if any, with which a connection is refused.
    pub open spec fn connect_error(&self) -> Option<CircuitError> {
        match self.directory() {
            None => Some(CircuitError::NotInitialized),
            Some(dir) => if path_is_pinned(self.custom_path()) {
                pinned_path_error(self.custom_path(), dir)
            } else {
                None
            },
        }
    }

    /// Whether `plan` is the plan for a connection to `hs_addr` and
    /// `hs_port`: a pinned path holds the identities of the three
    /// fingerprints in their order, guard first.
    pub open spec fn plans(&self, plan: ConnectPlan, hs_addr: Seq<char>, hs_port: u16) -> bool {
        &&& plan.hs_addr@ == hs_addr
        &&& plan.hs_port == hs_port
        &&& plan.prefs == (StreamPrefs { connect_to_onion_services: true, ipv6_preferred: true })
        &&& !path_is_pinned(self.custom_path()) ==> plan.path is Random
        &&& path_is_pinned(self.custom_path()) ==> {
            &&& plan.path is Pinned
            &&& plan.path->Pinned_0.guard@ == fingerprint_bytes(self.custom_path()[0]@)
            &&& plan.path->Pinned_0.middle@ == fingerprint_bytes(self.custom_path()[1]@)
            &&& plan.path->Pinned_0.exit@ == fingerprint_bytes(self.custom_path()[2]@)
        }
    }

    /// A connector without directory and without custom path.
    pub fn new() -> (connector: TorHSConnector)
        ensures
            connector.wf(),
            connector.directory() is None,
            connector.custom_path() == Seq::<String>::empty(),
    {
        TorHSConnector { directory: None, custom_path: Vec::new() }
    }

    /// Starts the connector with what the directory cache gave. A cached
    /// directory is taken into use; without one the caller has to bootstrap.
    pub fn init(&mut self, cached: Option<NetworkDirectory>) -> (action: InitAction)
        requires
            old(self).wf(),
            cached is Some ==> cached->Some_0.wf(),
        ensures
            final(self).wf(),
            final(self).custom_path() == old(self).custom_path(),
            cached is Some ==> action == InitAction::Ready && final(self).directory() == cached,
            cached is None ==> action == InitAction::Bootstrap && final(self).directory() == old(self).directory(),
    {
        match cached {
            Some(dir) => {
                self.directory = Some(dir);
                InitAction::Ready
            },
            None => InitAction::Bootstrap,
        }
    }

    /// Takes `dir` into use, in place of any directory used before.
    pub fn set_directory(&mut self, dir: NetworkDirectory)
        requires
            dir.wf(),
        ensures
            final(self).wf(),
            final(self).directory() == Some(dir),
            final(self).custom_path() == old(self).custom_path(),
    {
        self.directory = Some(dir);
    }

    /// Sets the custom path. It takes effect on the next connect, and only
    /// if it names exactly three relays: guard, middle and exit.
    pub fn set_custom_hs_relay_ids(&mut self, rsa_ids: Vec<String>)
        ensures
            final(self).custom_path() == rsa_ids@,
            final(self).directory() == old(self).directory(),
    {
        self.custom_path = rsa_ids;
    }

    fn resolve_hop(dir: &NetworkDirectory, fingerprint: &str) -> (hop: Result<
        RelayIdentity,
        CircuitError,
    >)
        ensures
            match hop_error(fingerprint@, *dir) {
                Some(error) => hop == Err::<RelayIdentity, CircuitError>(error),
                None => hop is Ok && hop->Ok_0@ == fingerprint_bytes(fingerprint@),
            },
    {
        let identity = match RelayIdentity::from_fingerprint(fingerprint) {
            Ok(identity) => identity,
            Err(error) => {
                return Err(error);
            },
        };
        match dir.position(&identity) {
            Some(_) => Ok(identity),
            None => Err(CircuitError::RelayNotFound),
        }
    }

    /// Plans a connection to port `hs_port` of the service `hs_addr`.
    ///
    /// Before `init` this is `NotInitialized`. With a custom path of three
    /// fingerprints the circuit goes through these relays in order, and the
    /// first of them that is malformed (`InvalidFingerprint`) or unknown to
    /// the directory (`RelayNotFound`) fails the connection. Otherwise the
    /// path is left to the default policy. The stream is asked to reach
    /// onion services and to prefer IPv6.
    pub fn connect_to_hs(&self, hs_addr: &str, hs_port: u16) -> (plan: Result<
        ConnectPlan,
        CircuitError,
    >)
        ensures
            match self.connect_error() {
                Some(error) => plan == Err::<ConnectPlan, CircuitError>(error),
                None => plan is Ok && self.plans(plan->Ok_0, hs_addr@, hs_port),
            },
    {
        let dir = match &self.directory {
            Some(dir) => dir,
            None => {
                return Err(CircuitError::NotInitialized);
            },
        };
        let path = if self.custom_path.len() == 3 {
            let guard = match Self::resolve_hop(dir, self.custom_path[0].as_str()) {
                Ok(hop) => hop,
                Err(error) => {
                    return Err(error);
                },
            };
            let middle = match Self::resolve_hop(dir, self.custom_path[1].as_str()) {
                Ok(hop) => hop,
                Err(error) => {
                    return Err(error);
                },
            };
            let exit = match Self::resolve_hop(dir, self.custom_path[2].as_str()) {
                Ok(hop) => hop,
                Err(error) => {
                    return Err(error);
                },
            };
            PathChoice::Pinned(PinnedPath { guard, middle, exit })
        } else {
            PathChoice::Random
        };
        Ok(
            ConnectPlan {
                path,
                hs_addr: hs_addr.to_owned(),
                hs_port,
                prefs: StreamPrefs { connect_to_onion_services: true, ipv6_preferred: true },
            },
        )
    }

    /// The address at which to reach the relay of identity `id`: the one
    /// that the directory's relay of that identity prefers. `None` before
    /// `init`, for a relay that the directory does not list, and for one
    /// without addresses.
    pub fn relay_address(&self, id: &RelayIdentity) -> (addr: Option<RelayAddress>)
        ensures
            self.directory() is None ==> addr is None,
            self.directory() is Some && !lists_identity(self.directory()->Some_0@, id@)
                ==> addr is None,
            self.directory() is Some && lists_identity(self.directory()->Some_0@, id@)
                ==> exists|i: int|
                0 <= i < self.directory()->Some_0@.len() && (
                #[trigger] self.directory()->Some_0@[i]).identity@ == id@ && addr
                    == self.directory()->Some_0@[i].spec_preferred_addr(),
    {
        match &self.directory {
            Some(dir) => match dir.by_id(id) {
                Some(relay) => {
                    proof {
                        let i = choose|i: int| 0 <= i < dir@.len() && dir@[i] == *relay;
                        assert(dir@[i].identity@ == id@);
                    }
                    relay.preferred_addr()
                },
                None => None,
            },
            None => None,
        }
    }

    /// Selects relays from the directory in use; see
    /// `selector::select_relays`. Before `init` this is `NotInitialized`.
    pub fn select_relays(
        &self,
        relay_flags: u32,
        ipv6_required: bool,
        offset: usize,
        limit: i32,
    ) -> (result: Result<Vec<String>, CircuitError>)
        ensures
            self.directory() is None ==> result == Err::<Vec<String>, CircuitError>(
                CircuitError::NotInitialized,
            ),
            self.directory() is Some ==> result is Ok && texts(result->Ok_0@)
                == selected_fingerprints(
                self.directory()->Some_0@,
                relay_flags,
                ipv6_required,
                offset as int,
                limit as int,
            ),
    {
        match &self.directory {
            Some(dir) => Ok(select_relays(dir, relay_flags, ipv6_required, offset, limit)),
            None => Err(CircuitError::NotInitialized),
        }
    }

    /// Decodes a filter bitmask; see `flags::u32_to_relay_flags`.
    pub fn u32_to_relay_flags(&self, flags_u32: u32) -> (flags: RelayFlags)
        ensures
            flags@ == crate::flags::decode_flags(flags_u32),
    {
        u32_to_relay_flags(flags_u32)
    }
}

} // verus!
