//! The per-connection session driver: a state machine that sequences
//! greeting, method selection, request, policy check, resolution, backend
//! dial, reply, and relay hand-off.
//!
//! The machine is pure: the surrounding process feeds it the bytes it
//! reads from the client and the outcome of the backend dial, and
//! performs the action each step decides (write, dial, relay, close).
use crate::policy::acceptable_hostname;
use crate::policy::is_acceptable_hostname;
use crate::policy::ProxyService;
use crate::resolve::resolve_backend_path;
use crate::resolve::spec_backend_path;
use crate::socks::domain_bytes;
use crate::socks::hello_complete;
use crate::socks::hello_incomplete;
use crate::socks::hello_len;
use crate::socks::hello_malformed;
use crate::socks::hello_offers_no_auth;
use crate::socks::make_method_selection;
use crate::socks::make_reply;
use crate::socks::offers_no_authentication;
use crate::socks::parse_client_hello;
use crate::socks::parse_socks_request;
use crate::socks::request_complete;
use crate::socks::request_incomplete;
use crate::socks::request_len;
use crate::socks::request_malformed;
use crate::socks::request_matches;
use crate::socks::request_port;
use crate::socks::request_unknown_atyp;
use crate::socks::spec_method_selection;
use crate::socks::spec_reply;
use crate::socks::HelloParse;
use crate::socks::RequestParse;
use crate::socks::SocksRequest;
use crate::socks::SocksRequestAddress;
use crate::socks::ATYP_DOMAINNAME;
use crate::socks::ATYP_V4;
use crate::socks::ATYP_V6;
use crate::socks::COMMAND_CONNECT;
use crate::socks::NO_ACCEPTABLE_AUTHENTICATION;
use crate::socks::NO_AUTHENTICATION;
use crate::socks::REP_ADDRESS_TYPE_NOT_SUPPORTED;
use crate::socks::REP_COMMAND_NOT_SUPPORTED;
use crate::socks::REP_CONNECTION_NOT_ALLOWED;
use crate::socks::REP_HOST_NOT_REACHABLE;
use crate::socks::REP_SUCCEEDED;
use crate::socks::SOCKS_VERSION5;
use vstd::prelude::*;
use vstd::utf8::decode_utf8;

verus! {

/// What a parsed request is denied with, if anything: the command must
/// be CONNECT, the address a domain name, and the domain acceptable to
/// the hostname policy.
pub open spec fn spec_denial(request: SocksRequest) -> Option<u8> {
    if request.command.0 != COMMAND_CONNECT {
        Some(REP_COMMAND_NOT_SUPPORTED)
    } else {
        match request.address {
            SocksRequestAddress::V4(_) => Some(REP_ADDRESS_TYPE_NOT_SUPPORTED),
            SocksRequestAddress::V6(_) => Some(REP_ADDRESS_TYPE_NOT_SUPPORTED),
            SocksRequestAddress::DomainName(h) => if !acceptable_hostname(h@) {
                Some(REP_CONNECTION_NOT_ALLOWED)
            } else {
                None
            },
        }
    }
}

/// `spec_denial`, stated over the wire bytes of a complete request.
pub open spec fn spec_wire_denial(b: Seq<u8>) -> Option<u8>
    recommends
        request_complete(b),
{
    if b[1] != COMMAND_CONNECT {
        Some(REP_COMMAND_NOT_SUPPORTED)
    } else if b[3] == ATYP_V4 || b[3] == ATYP_V6 {
        Some(REP_ADDRESS_TYPE_NOT_SUPPORTED)
    } else if !acceptable_hostname(decode_utf8(domain_bytes(b))) {
        Some(REP_CONNECTION_NOT_ALLOWED)
    } else {
        None
    }
}

/// A request denied on the wire is the parsed request denied: the two
/// statements of the dispatch policy agree.
proof fn lemma_wire_denial(b: Seq<u8>, request: SocksRequest)
    requires
        request_complete(b),
        request_matches(b, request),
    ensures
        spec_denial(request) == spec_wire_denial(b),
{
}

/// What the session decides about a parsed request.
#[derive(Debug, PartialEq, Eq)]
pub enum RequestDecision {
    /// Write a reply with this code and close.
    Deny(u8),
    /// Connect to the backend endpoint at this path; on success, reply
    /// success and relay.
    Connect(String),
}

/// Decide a parsed request: reject anything but CONNECT-to-domain, apply
/// the hostname policy, and resolve the destination to its backend path.
pub fn dispatch_request(directory: &str, request: &SocksRequest) -> (d: RequestDecision)
    ensures
        spec_denial(*request) matches Some(code) ==> d == RequestDecision::Deny(code),
        spec_denial(*request) is None ==> (d matches RequestDecision::Connect(p)
            && request.address matches SocksRequestAddress::DomainName(h) && p@
            == spec_backend_path(directory@, h@, request.port)),
{
    if request.command.to_u8() != COMMAND_CONNECT {
        return RequestDecision::Deny(REP_COMMAND_NOT_SUPPORTED);
    }
    match &request.address {
        SocksRequestAddress::V4(_) => RequestDecision::Deny(REP_ADDRESS_TYPE_NOT_SUPPORTED),
        SocksRequestAddress::V6(_) => RequestDecision::Deny(REP_ADDRESS_TYPE_NOT_SUPPORTED),
        SocksRequestAddress::DomainName(h) => {
            if !is_acceptable_hostname(h.as_str()) {
                RequestDecision::Deny(REP_CONNECTION_NOT_ALLOWED)
            } else {
                RequestDecision::Connect(resolve_backend_path(directory, h.as_str(), request.port))
            }
        },
    }
}

/// The protocol states a session waits in.
#[derive(Debug, PartialEq, Eq, Structural, Clone, Copy)]
pub enum SessionState {
    /// Waiting for the client greeting.
    AwaitingGreeting,
    /// Method selection was written; waiting for the request.
    AwaitingRequest,
    /// The backend dial is in flight; waiting for its outcome.
    AwaitingDial,
    /// The success reply was handed off; the relay owns both streams.
    Relaying,
    /// The session is over; the client stream is to be closed.
    Terminated,
}

/// The action one session step decides; the caller performs it.
#[derive(Debug, PartialEq, Eq)]
pub enum SessionOutput {
    /// Read more client bytes.
    NeedMoreData,
    /// Write these bytes to the client, then keep reading.
    Write(Vec<u8>),
    /// Write these bytes to the client, then close its write half.
    WriteAndClose(Vec<u8>),
    /// Close the client without writing anything.
    Close,
    /// Dial the backend endpoint at this path and report the outcome.
    Dial(String),
    /// Write the success reply to the client, forward the early payload
    /// to the backend, then relay bidirectionally.
    StartRelay { reply: Vec<u8>, early_payload: Vec<u8> },
}

/// One client session: the protocol state and the client bytes read but
/// not yet consumed by the codec.  In `AwaitingDial` the buffered bytes
/// are early relay payload, preserved for the relay.
pub struct Session {
    /// Which message or event the session waits for.
    pub state: SessionState,
    /// Bytes read from the client and not yet consumed.
    pub buf: Vec<u8>,
}

impl Session {
    /// A fresh session, awaiting the greeting with nothing buffered.
    pub fn new() -> (s: Session)
        ensures
            s.state == SessionState::AwaitingGreeting,
            s.buf@ == Seq::<u8>::empty(),
    {
        Session { state: SessionState::AwaitingGreeting, buf: Vec::new() }
    }

    /// Feed bytes read from the client.  Parses the message the state
    /// awaits once it is complete, decides the write the protocol
    /// prescribes, and carries unconsumed bytes into the next phase.
    /// After a `Write` action the caller should feed an empty chunk
    /// before reading again, so that pipelined bytes already buffered
    /// are consumed.
    pub fn on_client_bytes(&mut self, service: &ProxyService, chunk: &[u8]) -> (out: SessionOutput)
        ensures
            ({
                let nb = old(self).buf@ + chunk@;
                match old(self).state {
                    SessionState::AwaitingGreeting => {
                        &&& hello_incomplete(nb) ==> out == SessionOutput::NeedMoreData && final (
                        self).state == SessionState::AwaitingGreeting && final (self).buf@ == nb
                        &&& hello_malformed(nb) ==> out == SessionOutput::Close && final (
                        self).state == SessionState::Terminated
                        &&& hello_complete(nb) && hello_offers_no_auth(nb) ==> (
                        out matches SessionOutput::Write(d) && d@ == spec_method_selection(
                            NO_AUTHENTICATION,
                        )) && final (self).state == SessionState::AwaitingRequest && final (
                        self).buf@ == nb.skip(hello_len(nb))
                        &&& hello_complete(nb) && !hello_offers_no_auth(nb) ==> (
                        out matches SessionOutput::WriteAndClose(d) && d@ == spec_method_selection(
                            NO_ACCEPTABLE_AUTHENTICATION,
                        )) && final (self).state == SessionState::Terminated
                    },
                    SessionState::AwaitingRequest => {
                        &&& request_incomplete(nb) ==> out == SessionOutput::NeedMoreData && final (
                        self).state == SessionState::AwaitingRequest && final (self).buf@ == nb
                        &&& request_malformed(nb) ==> out == SessionOutput::Close && final (
                        self).state == SessionState::Terminated
                        &&& request_unknown_atyp(nb) ==> (
                        out matches SessionOutput::WriteAndClose(d) && d@ == spec_reply(
                            REP_ADDRESS_TYPE_NOT_SUPPORTED,
                        )) && final (self).state == SessionState::Terminated
                        &&& request_complete(nb) ==> (match spec_wire_denial(nb) {
                            Some(code) => (out matches SessionOutput::WriteAndClose(d) && d@
                                == spec_reply(code)) && final (self).state
                                == SessionState::Terminated,
                            None => (out matches SessionOutput::Dial(p) && p@ == spec_backend_path(
                                service.directory@,
                                decode_utf8(domain_bytes(nb)),
                                request_port(nb),
                            )) && final (self).state == SessionState::AwaitingDial && final (
                            self).buf@ == nb.skip(request_len(nb)),
                        })
                    },
                    SessionState::AwaitingDial => out == SessionOutput::NeedMoreData && final (
                    self).state == SessionState::AwaitingDial && final (self).buf@ == nb,
                    SessionState::Relaying => out == SessionOutput::NeedMoreData && final (
                    self).state == SessionState::Relaying && final (self).buf@ == nb,
                    SessionState::Terminated => out == SessionOutput::Close && final (self).state
                        == SessionState::Terminated && final (self).buf@ == nb,
                }
            }),
    {
        append_bytes(&mut self.buf, chunk);
        match self.state {
            SessionState::AwaitingGreeting => {
                match parse_client_hello(self.buf.as_slice()) {
                    HelloParse::Incomplete => SessionOutput::NeedMoreData,
                    HelloParse::Malformed => {
                        self.state = SessionState::Terminated;
                        SessionOutput::Close
                    },
                    HelloParse::Parsed { methods, consumed } => {
                        if offers_no_authentication(&methods) {
                            proof {
                                assert(hello_offers_no_auth(self.buf@));
                            }
                            let rest = tail_bytes(&self.buf, consumed);
                            self.buf = rest;
                            self.state = SessionState::AwaitingRequest;
                            SessionOutput::Write(make_method_selection(NO_AUTHENTICATION))
                        } else {
                            self.state = SessionState::Terminated;
                            SessionOutput::WriteAndClose(
                                make_method_selection(NO_ACCEPTABLE_AUTHENTICATION),
                            )
                        }
                    },
                }
            },
            SessionState::AwaitingRequest => {
                match parse_socks_request(self.buf.as_slice()) {
                    RequestParse::Incomplete => SessionOutput::NeedMoreData,
                    RequestParse::Malformed => {
                        self.state = SessionState::Terminated;
                        SessionOutput::Close
                    },
                    RequestParse::UnknownAddressType => {
                        self.state = SessionState::Terminated;
                        SessionOutput::WriteAndClose(make_reply(REP_ADDRESS_TYPE_NOT_SUPPORTED))
                    },
                    RequestParse::Parsed { request, consumed } => {
                        proof {
                            lemma_wire_denial(self.buf@, request);
                        }
                        match dispatch_request(service.directory.as_str(), &request) {
                            RequestDecision::Deny(code) => {
                                self.state = SessionState::Terminated;
                                SessionOutput::WriteAndClose(make_reply(code))
                            },
                            RequestDecision::Connect(path) => {
                                let rest = tail_bytes(&self.buf, consumed);
                                self.buf = rest;
                                self.state = SessionState::AwaitingDial;
                                SessionOutput::Dial(path)
                            },
                        }
                    },
                }
            },
            SessionState::AwaitingDial => SessionOutput::NeedMoreData,
            SessionState::Relaying => SessionOutput::NeedMoreData,
            SessionState::Terminated => SessionOutput::Close,
        }
    }

    /// The client closed before the session reached the relay: a
    /// protocol error; the session closes without a reply.
    pub fn on_client_eof(&mut self) -> (out: SessionOutput)
        ensures
            out == SessionOutput::Close,
            final (self).state == SessionState::Terminated,
            final (self).buf == old(self).buf,
    {
        self.state = SessionState::Terminated;
        SessionOutput::Close
    }

    /// Feed the outcome of the backend dial.  On success the session
    /// hands the success reply and the early payload to the relay; on
    /// failure it replies host-unreachable and closes.
    pub fn on_dial_result(&mut self, ok: bool) -> (out: SessionOutput)
        ensures
            old(self).state == SessionState::AwaitingDial && ok ==> (
            out matches SessionOutput::StartRelay { reply, early_payload } && reply@ == spec_reply(
                REP_SUCCEEDED,
            ) && early_payload@ == old(self).buf@) && final (self).state == SessionState::Relaying
                && final (self).buf@ == Seq::<u8>::empty(),
            old(self).state == SessionState::AwaitingDial && !ok ==> (
            out matches SessionOutput::WriteAndClose(d) && d@ == spec_reply(
                REP_HOST_NOT_REACHABLE,
            )) && final (self).state == SessionState::Terminated,
            old(self).state != SessionState::AwaitingDial ==> out == SessionOutput::Close && final (
            self).state == SessionState::Terminated,
    {
        match self.state {
            SessionState::AwaitingDial => {
                if ok {
                    let early_payload = tail_bytes(&self.buf, 0);
                    self.buf = Vec::new();
                    self.state = SessionState::Relaying;
                    SessionOutput::StartRelay { reply: make_reply(REP_SUCCEEDED), early_payload }
                } else {
                    self.state = SessionState::Terminated;
                    SessionOutput::WriteAndClose(make_reply(REP_HOST_NOT_REACHABLE))
                }
            },
            _ => {
                self.state = SessionState::Terminated;
                SessionOutput::Close
            },
        }
    }
}

/// Append a chunk to the session buffer.
fn append_bytes(dst: &mut Vec<u8>, src: &[u8])
    ensures
        final (dst)@ == old(dst)@ + src@,
{
    let mut i: usize = 0;
    while i < src.len()
        invariant
            i <= src@.len(),
            dst@ =~= old(dst)@ + src@.take(i as int),
        decreases src@.len() - i,
    {
        dst.push(src[i]);
        i += 1;
    }
    proof {
        assert(dst@ =~= old(dst)@ + src@);
    }
}

/// The bytes of `b` from position `from` on, as a fresh vector.
fn tail_bytes(b: &Vec<u8>, from: usize) -> (v: Vec<u8>)
    requires
        from <= b@.len(),
    ensures
        v@ == b@.skip(from as int),
{
    let mut v: Vec<u8> = Vec::new();
    let mut i: usize = from;
    while i < b.len()
        invariant
            from <= i <= b@.len(),
            v@ =~= b@.subrange(from as int, i as int),
        decreases b@.len() - i,
    {
        v.push(b[i]);
        i += 1;
    }
    proof {
        assert(v@ =~= b@.skip(from as int));
    }
    v
}

/// Command-policy law: a request whose command is anything but CONNECT
/// is denied with the command-not-supported code, whatever its address
/// and port.
pub proof fn lemma_command_policy(request: SocksRequest)
    requires
        request.command.0 != COMMAND_CONNECT,
    ensures
        spec_denial(request) == Some(REP_COMMAND_NOT_SUPPORTED),
{
}

/// Address-type-policy law: a CONNECT request carrying an IP address is
/// denied with the address-type-not-supported code; so is, at the wire,
/// any request whose address-type octet names no known address type.
pub proof fn lemma_address_type_policy(request: SocksRequest, b: Seq<u8>)
    requires
        request.command.0 == COMMAND_CONNECT,
        request.address is V4 || request.address is V6,
        b.len() >= 4,
        b[0] == SOCKS_VERSION5,
        b[3] != ATYP_V4 && b[3] != ATYP_DOMAINNAME && b[3] != ATYP_V6,
    ensures
        spec_denial(request) == Some(REP_ADDRESS_TYPE_NOT_SUPPORTED),
        request_unknown_atyp(b),
{
}

/// Hostname-policy law: a CONNECT request to a domain name is denied
/// with the connection-not-allowed code exactly when the domain contains
/// a forbidden character (a path or drive separator, or a NUL).
pub proof fn lemma_hostname_policy(request: SocksRequest)
    requires
        request.command.0 == COMMAND_CONNECT,
        request.address matches SocksRequestAddress::DomainName(h),
    ensures
        spec_denial(request) == Some(REP_CONNECTION_NOT_ALLOWED) <==> (
        request.address matches SocksRequestAddress::DomainName(h) && exists|i: int|
            0 <= i < h@.len() && crate::policy::forbidden_host_char(#[trigger] h@[i])),
{
}

} // verus!
