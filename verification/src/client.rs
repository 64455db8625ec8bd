//! Talking to a service over an open stream: the request that is sent and
//! the bounded reading of the response.

use vstd::prelude::*;
use crate::circuit::TorCircuitManager;
use crate::connector::{ConnectPlan, InitAction, TorHSConnector, HTTPS_PORT};
use crate::directory::NetworkDirectory;
use crate::error::CircuitError;
use crate::text::chars_of;

verus! {

/// Number of response bytes after which reading stops.
pub const RESPONSE_CAP: usize = 10485760;

/// Size of the buffer that one read fills.
pub const READ_CHUNK: usize = 1024;

/// Seconds that one read may take.
pub const READ_TIMEOUT_SECS: u64 = 20;

/// Number of leading response bytes that are shown to the user.
pub const PREVIEW_LEN: usize = 1000;

/// Whether `"://"` stands at index `at` of `url`.
pub open spec fn scheme_mark_at(url: Seq<char>, at: int) -> bool {
    0 <= at && at + 3 <= url.len() && url[at] == ':' && url[at + 1] == '/' && url[at + 2] == '/'
}

/// Index of the first `"://"` at or behind `from`; -1 if there is none.
pub open spec fn first_scheme_mark(url: Seq<char>, from: int) -> int
    decreases url.len() - from,
{
    if from < 0 || from + 3 > url.len() {
        -1
    } else if scheme_mark_at(url, from) {
        from
    } else {
        first_scheme_mark(url, from + 1)
    }
}

/// Index of the first `'/'` at or behind `from`; the length of `url` if
/// there is none.
pub open spec fn first_slash(url: Seq<char>, from: int) -> int
    decreases url.len() - from,
{
    if from < 0 || from >= url.len() {
        url.len() as int
    } else if url[from] == '/' {
        from
    } else {
        first_slash(url, from + 1)
    }
}

/// Host and path of `scheme://host[/path]`: the host reaches from behind
/// the first `"://"` to the next `'/'`, the path from that `'/'` to the
/// end. Without a `'/'` behind the host the path is `"/"`. `None` without
/// `"://"`.
pub open spec fn url_parts(url: Seq<char>) -> Option<(Seq<char>, Seq<char>)> {
    let mark = first_scheme_mark(url, 0);
    if mark < 0 {
        None
    } else {
        let slash = first_slash(url, mark + 3);
        Some(
            (
                url.subrange(mark + 3, slash),
                if slash < url.len() {
                    url.subrange(slash, url.len() as int)
                } else {
                    seq!['/']
                },
            ),
        )
    }
}

/// The `"://"` that `first_scheme_mark` finds is the first one.
pub proof fn law_first_scheme_mark(url: Seq<char>, from: int)
    requires
        0 <= from,
    ensures
        first_scheme_mark(url, from) == -1 || (from <= first_scheme_mark(url, from)
            && scheme_mark_at(url, first_scheme_mark(url, from))),
        forall|i: int|
            from <= i && (i < first_scheme_mark(url, from) || first_scheme_mark(url, from) == -1)
                ==> !scheme_mark_at(url, i),
    decreases url.len() - from,
{
    if from + 3 <= url.len() && !scheme_mark_at(url, from) {
        law_first_scheme_mark(url, from + 1);
    }
}

/// The `'/'` that `first_slash` finds is the first one.
pub proof fn law_first_slash(url: Seq<char>, from: int)
    requires
        0 <= from <= url.len(),
    ensures
        from <= first_slash(url, from) <= url.len(),
        first_slash(url, from) < url.len() ==> url[first_slash(url, from)] == '/',
        forall|i: int| from <= i < first_slash(url, from) ==> url[i] != '/',
    decreases url.len() - from,
{
    if from < url.len() && url[from] != '/' {
        law_first_slash(url, from + 1);
    }
}

/// Host and path of a connect target.
#[derive(Debug)]
pub struct UrlTarget {
    pub host: String,
    pub path: String,
}

/// Splits a connect target of the form `scheme://host[/path]`. A target
/// without `"://"` is `MissingScheme`; a target without path gets `"/"`.
pub fn parse_url(url: &str) -> (target: Result<UrlTarget, CircuitError>)
    ensures
        url_parts(url@) is None ==> target == Err::<UrlTarget, CircuitError>(
            CircuitError::MissingScheme,
        ),
        url_parts(url@) is Some ==> target is Ok && target->Ok_0.host@ == url_parts(url@)->Some_0.0
            && target->Ok_0.path@ == url_parts(url@)->Some_0.1,
{
    let chars = chars_of(url);
    let n: usize = chars.len();
    if n < 3 {
        return Err(CircuitError::MissingScheme);
    }
    let mut mark: usize = 0;
    let mut found = false;
    while !found && mark <= n - 3
        invariant
            chars@ == url@,
            n == url@.len(),
            n >= 3,
            mark <= n - 2,
            first_scheme_mark(url@, 0) == first_scheme_mark(url@, mark as int),
            found ==> scheme_mark_at(url@, mark as int),
        decreases n - mark + (if found { 0int } else { 1int }),
    {
        if chars[mark] == ':' && chars[mark + 1] == '/' && chars[mark + 2] == '/' {
            found = true;
        } else {
            mark = mark + 1;
        }
    }
    if !found {
        return Err(CircuitError::MissingScheme);
    }
    let mut slash: usize = mark + 3;
    proof {
        law_first_slash(url@, mark + 3);
    }
    while slash < n && chars[slash] != '/'
        invariant
            chars@ == url@,
            n == url@.len(),
            mark + 3 <= slash <= n,
            first_slash(url@, mark + 3) == first_slash(url@, slash as int),
        decreases n - slash,
    {
        slash = slash + 1;
    }
    let host = url.substring_char(mark + 3, slash).to_owned();
    let path = if slash < n {
        url.substring_char(slash, n).to_owned()
    } else {
        proof {
            reveal_strlit("/");
            assert("/"@ =~= seq!['/']);
        }
        "/".to_owned()
    };
    Ok(UrlTarget { host, path })
}

/// The text of a request for `path` on `host`, after which the server
/// closes the connection.
pub open spec fn request_text(host: Seq<char>, path: Seq<char>) -> Seq<char> {
    "GET "@ + path + " HTTP/1.1\r\nHost: "@ + host + "\r\nConnection: close\r\n\r\n"@
}

/// The request that is sent for `path` on `host`.
pub fn http_request(host: &str, path: &str) -> (request: String)
    ensures
        request@ == request_text(host@, path@),
{
    let mut request = "GET ".to_owned();
    request.append(path);
    request.append(" HTTP/1.1\r\nHost: ");
    request.append(host);
    request.append("\r\nConnection: close\r\n\r\n");
    request
}

/// What the caller has to do to fetch a page over a circuit.
#[derive(Debug)]
pub struct FetchPlan {
    /// The host to open the stream to.
    pub host: String,
    /// The port to open the stream to.
    pub port: u16,
    /// The bytes to send once the stream is open.
    pub request: String,
}

/// Plans the fetch of `url` over the circuit that `manager` holds.
///
/// A target without `"://"` is `MissingScheme`; with a well-formed target
/// but no circuit the result is `NoCircuit`. Otherwise the stream goes to
/// the host of the target, on `port`, and the request asks for its path.
pub fn plan_fetch(manager: &TorCircuitManager, url: &str, port: u16) -> (plan: Result<
    FetchPlan,
    CircuitError,
>)
    ensures
        match url_parts(url@) {
            None => plan == Err::<FetchPlan, CircuitError>(CircuitError::MissingScheme),
            Some(parts) => if manager.circuit() is None {
                plan == Err::<FetchPlan, CircuitError>(CircuitError::NoCircuit)
            } else {
                &&& plan is Ok
                &&& plan->Ok_0.host@ == parts.0
                &&& plan->Ok_0.port == port
                &&& plan->Ok_0.request@ == request_text(parts.0, parts.1)
            },
        },
{
    let target = match parse_url(url) {
        Ok(target) => target,
        Err(error) => {
            return Err(error);
        },
    };
    match manager.get_circ() {
        Ok(_) => {},
        Err(error) => {
            return Err(error);
        },
    }
    let request = http_request(target.host.as_str(), target.path.as_str());
    Ok(FetchPlan { host: target.host, port, request })
}

/// What one read on the stream gave.
#[derive(Debug)]
pub enum ReadEvent<'a> {
    /// The bytes that were read; none at the end of the stream.
    Bytes(&'a [u8]),
    /// The stream failed.
    Failed,
    /// The read did not complete within `READ_TIMEOUT_SECS`.
    TimedOut,
}

/// Whether to read on.
#[derive(Clone, Copy, Debug, PartialEq, Eq, Structural)]
pub enum ReadStep {
    Continue,
    Finished,
}

/// Collects a response read by read, up to a cap.
#[derive(Debug)]
pub struct ResponseReader {
    response: Vec<u8>,
    cap: usize,
    finished: bool,
}

impl View for ResponseReader {
    type V = Seq<u8>;

    /// The bytes collected so far.
    closed spec fn view(&self) -> Seq<u8> {
        self.response@
    }
}

impl ResponseReader {
    /// The number of bytes after which reading stops.
    pub closed spec fn spec_cap(&self) -> usize {
        self.cap
    }

    /// Whether reading has stopped.
    pub closed spec fn spec_finished(&self) -> bool {
        self.finished
    }

    /// While reading goes on, the cap has not been exceeded.
    pub open spec fn wf(&self) -> bool {
        !self.spec_finished() ==> self@.len() <= self.spec_cap()
    }

    /// A reader that has read nothing yet.
    pub fn new(cap: usize) -> (reader: ResponseReader)
        ensures
            reader.wf(),
            reader@ == Seq::<u8>::empty(),
            reader.spec_cap() == cap,
            !reader.spec_finished(),
    {
        ResponseReader { response: Vec::new(), cap, finished: false }
    }

    /// Takes what one read gave.
    ///
    /// Bytes are appended to the response. Reading stops, without error, at
    /// the end of the stream, which is a read of no bytes, and as soon as
    /// the response is longer than the cap: the response is then cut short
    /// just above the cap, by less than one read. A read that failed is
    /// `StreamReadError`, one that timed out `ReadTimeout`; the bytes
    /// collected stay. Once reading has stopped, further reads change
    /// nothing.
    pub fn on_read(&mut self, event: ReadEvent<'_>) -> (step: Result<ReadStep, CircuitError>)
        requires
            old(self).wf(),
            event is Bytes ==> old(self)@.len() + event->Bytes_0@.len() <= usize::MAX,
        ensures
            final(self).wf(),
            final(self).spec_cap() == old(self).spec_cap(),
            old(self).spec_finished() ==> step == Ok::<ReadStep, CircuitError>(ReadStep::Finished)
                && final(self)@ == old(self)@ && final(self).spec_finished(),
            !old(self).spec_finished() ==> match event {
                ReadEvent::Bytes(chunk) => {
                    &&& final(self)@ == old(self)@ + chunk@
                    &&& final(self).spec_finished() == (chunk@.len() == 0 || final(self)@.len()
                        > old(self).spec_cap())
                    &&& step == Ok::<ReadStep, CircuitError>(
                        if final(self).spec_finished() {
                            ReadStep::Finished
                        } else {
                            ReadStep::Continue
                        },
                    )
                },
                ReadEvent::Failed => {
                    &&& step == Err::<ReadStep, CircuitError>(CircuitError::StreamReadError)
                    &&& final(self)@ == old(self)@
                    &&& !final(self).spec_finished()
                },
                ReadEvent::TimedOut => {
                    &&& step == Err::<ReadStep, CircuitError>(CircuitError::ReadTimeout)
                    &&& final(self)@ == old(self)@
                    &&& !final(self).spec_finished()
                },
            },
    {
        if self.finished {
            return Ok(ReadStep::Finished);
        }
        match event {
            ReadEvent::Bytes(chunk) => {
                if chunk.len() == 0 {
                    self.finished = true;
                    assert(self.response@ =~= old(self).response@ + chunk@);
                    return Ok(ReadStep::Finished);
                }
                self.response.extend_from_slice(chunk);
                if self.response.len() > self.cap {
                    self.finished = true;
                    Ok(ReadStep::Finished)
                } else {
                    Ok(ReadStep::Continue)
                }
            },
            ReadEvent::Failed => Err(CircuitError::StreamReadError),
            ReadEvent::TimedOut => Err(CircuitError::ReadTimeout),
        }
    }

    /// Whether reading has stopped.
    pub fn is_finished(&self) -> (finished: bool)
        ensures
            finished == self.spec_finished(),
    {
        self.finished
    }

    /// Number of bytes collected.
    pub fn len(&self) -> (n: usize)
        ensures
            n == self@.len(),
    {
        self.response.len()
    }

    /// The bytes collected.
    pub fn response(&self) -> (bytes: &Vec<u8>)
        ensures
            bytes@ == self@,
    {
        &self.response
    }

    /// The first `PREVIEW_LEN` bytes collected, or all if there are fewer.
    pub fn preview(&self) -> (bytes: Vec<u8>)
        ensures
            bytes@ == self@.take(
                if self@.len() < PREVIEW_LEN {
                    self@.len() as int
                } else {
                    PREVIEW_LEN as int
                },
            ),
    {
        let end: usize = if self.response.len() < PREVIEW_LEN {
            self.response.len()
        } else {
            PREVIEW_LEN
        };
        let mut bytes: Vec<u8> = Vec::new();
        let mut i: usize = 0;
        while i < end
            invariant
                i <= end <= self.response@.len(),
                bytes@ == self.response@.take(i as int),
            decreases end - i,
        {
            bytes.push(self.response[i]);
            assert(self.response@.take(i + 1) =~= self.response@.take(i as int).push(
                self.response@[i as int],
            ));
            i = i + 1;
        }
        bytes
    }
}

/// How the stream to the service is used.
#[derive(Clone, Copy, Debug, PartialEq, Eq, Structural)]
pub enum Transport {
    /// As it is.
    Plain,
    /// Under a TLS session whose certificates `OnionCertificateVerifier`
    /// judges.
    Tls,
}

/// TLS is layered over the stream on port 443 and wherever it is asked for.
pub open spec fn spec_transport(hs_port: u16, tls_requested: bool) -> Transport {
    if hs_port == HTTPS_PORT || tls_requested {
        Transport::Tls
    } else {
        Transport::Plain
    }
}

/// What the caller has to do to fetch the front page of a service.
#[derive(Debug)]
pub struct SessionPlan {
    pub connect: ConnectPlan,
    pub transport: Transport,
    pub request: String,
}

/// Fetches the front page of an onion service.
#[derive(Debug)]
pub struct TorHSClient {
    hs_client: TorHSConnector,
}

impl TorHSClient {
    /// The connector underneath.
    pub closed spec fn connector(&self) -> TorHSConnector {
        self.hs_client
    }

    pub open spec fn wf(&self) -> bool {
        self.connector().wf()
    }

    /// A client without directory and without custom path.
    pub fn new() -> (client: TorHSClient)
        ensures
            client.wf(),
            client.connector().directory() is None,
            client.connector().custom_path() == Seq::<String>::empty(),
    {
        TorHSClient { hs_client: TorHSConnector::new() }
    }

    /// Starts the client with what the directory cache gave; see
    /// `TorHSConnector::init`.
    pub fn init(&mut self, cached: Option<NetworkDirectory>) -> (action: InitAction)
        requires
            old(self).wf(),
            cached is Some ==> cached->Some_0.wf(),
        ensures
            final(self).wf(),
            final(self).connector().custom_path() == old(self).connector().custom_path(),
            cached is Some ==> action == InitAction::Ready && final(self).connector().directory()
                == cached,
            cached is None ==> action == InitAction::Bootstrap && final(self).connector().directory() == old(self).connector().directory(),
    {
        self.hs_client.init(cached)
    }

    /// Takes `dir` into use, in place of any directory used before.
    pub fn set_directory(&mut self, dir: NetworkDirectory)
        requires
            dir.wf(),
        ensures
            final(self).wf(),
            final(self).connector().directory() == Some(dir),
            final(self).connector().custom_path() == old(self).connector().custom_path(),
    {
        self.hs_client.set_directory(dir);
    }

    /// Pins the path of the next connections to these three relays.
    pub fn set_custom_hs_relay_ids(
        &mut self,
        guard_rsa_id: &str,
        middle_rsa_id: &str,
        exit_rsa_id: &str,
    ) -> (done: Result<(), CircuitError>)
        ensures
            done is Ok,
            final(self).connector().directory() == old(self).connector().directory(),
            final(self).connector().custom_path().len() == 3,
            final(self).connector().custom_path()[0]@ == guard_rsa_id@,
            final(self).connector().custom_path()[1]@ == middle_rsa_id@,
            final(self).connector().custom_path()[2]@ == exit_rsa_id@,
    {
        let mut rsa_ids: Vec<String> = Vec::new();
        rsa_ids.push(guard_rsa_id.to_owned());
        rsa_ids.push(middle_rsa_id.to_owned());
        rsa_ids.push(exit_rsa_id.to_owned());
        self.hs_client.set_custom_hs_relay_ids(rsa_ids);
        Ok(())
    }

    /// The connector underneath.
    pub fn hs_connector(&self) -> (connector: &TorHSConnector)
        ensures
            *connector == self.connector(),
    {
        &self.hs_client
    }

    /// Plans the fetch of the front page of `hs_addr` on port `hs_port`.
    ///
    /// Fails as `TorHSConnector::connect_to_hs` fails. Otherwise the plan is
    /// the connector's; TLS is used on port 443 and wherever
    /// `tls_requested`; the request asks for `/` on `hs_addr`.
    pub fn plan_session(&self, hs_addr: &str, hs_port: u16, tls_requested: bool) -> (plan: Result<
        SessionPlan,
        CircuitError,
    >)
        ensures
            match self.connector().connect_error() {
                Some(error) => plan == Err::<SessionPlan, CircuitError>(error),
                None => {
                    &&& plan is Ok
                    &&& self.connector().plans(plan->Ok_0.connect, hs_addr@, hs_port)
                    &&& plan->Ok_0.transport == spec_transport(hs_port, tls_requested)
                    &&& plan->Ok_0.request@ == request_text(hs_addr@, seq!['/'])
                },
            },
    {
        let connect = match self.hs_client.connect_to_hs(hs_addr, hs_port) {
            Ok(connect) => connect,
            Err(error) => {
                return Err(error);
            },
        };
        let transport = if hs_port == HTTPS_PORT || tls_requested {
            Transport::Tls
        } else {
            Transport::Plain
        };
        proof {
            reveal_strlit("/");
            assert("/"@ =~= seq!['/']);
        }
        Ok(SessionPlan { connect, transport, request: http_request(hs_addr, "/") })
    }

    /// Plans the fetch of the front page of `hs_addr` on port `hs_port`,
    /// with TLS on port 443 only; see `plan_session`.
    pub fn connect_to_hs(&self, hs_addr: &str, hs_port: u16) -> (plan: Result<
        SessionPlan,
        CircuitError,
    >)
        ensures
            match self.connector().connect_error() {
                Some(error) => plan == Err::<SessionPlan, CircuitError>(error),
                None => {
                    &&& plan is Ok
                    &&& self.connector().plans(plan->Ok_0.connect, hs_addr@, hs_port)
                    &&& plan->Ok_0.transport == spec_transport(hs_port, false)
                    &&& plan->Ok_0.request@ == request_text(hs_addr@, seq!['/'])
                },
            },
    {
        self.plan_session(hs_addr, hs_port, false)
    }
}

} // verus!
