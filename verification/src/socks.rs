//! SOCKS5 wire codec: protocol constants, the greeting and request
//! parsers, and reply framing.
//!
//! The parsers are pure functions over the bytes accumulated so far on a
//! connection.  Each one either asks for more bytes, rejects the message,
//! or returns the parsed value together with the number of bytes it
//! consumed; bytes beyond that count belong to the next phase of the
//! session.
use vstd::prelude::*;
use vstd::utf8::{decode_utf8, valid_utf8};

verus! {

/// SOCKS protocol version accepted and emitted by this library.
pub const SOCKS_VERSION5: u8 = 5;

/// Reply code: request succeeded.
pub const REP_SUCCEEDED: u8 = 0;
/// Reply code: connection not allowed by ruleset.
pub const REP_CONNECTION_NOT_ALLOWED: u8 = 2;
/// Reply code: host unreachable.
pub const REP_HOST_NOT_REACHABLE: u8 = 4;
/// Reply code: command not supported.
pub const REP_COMMAND_NOT_SUPPORTED: u8 = 7;
/// Reply code: address type not supported.
pub const REP_ADDRESS_TYPE_NOT_SUPPORTED: u8 = 8;

/// Method octet: no authentication required.
pub const NO_AUTHENTICATION: u8 = 0;
/// Method octet: no acceptable authentication method.
pub const NO_ACCEPTABLE_AUTHENTICATION: u8 = 255;

/// Command octet: CONNECT, the only command this library serves.
pub const COMMAND_CONNECT: u8 = 1;
/// Command octet: BIND (not served).
pub const COMMAND_BIND: u8 = 2;
/// Command octet: UDP ASSOCIATE (not served).
pub const COMMAND_UDP_ASSOCIATE: u8 = 3;

/// Address-type octet: IPv4.
pub const ATYP_V4: u8 = 1;
/// Address-type octet: domain name.
pub const ATYP_DOMAINNAME: u8 = 3;
/// Address-type octet: IPv6.
pub const ATYP_V6: u8 = 4;

/// An authentication method octet offered in a client greeting.
#[derive(Debug, PartialEq, Eq, Structural, Hash, Clone, Copy)]
pub struct AuthenticationMethod(pub u8);

impl AuthenticationMethod {
    /// The raw method octet.
    pub fn to_u8(&self) -> (r: u8)
        ensures
            r == self.0,
    {
        let AuthenticationMethod(raw) = self;
        *raw
    }
}

/// A SOCKS command octet carried in a request.
#[derive(Debug, PartialEq, Eq, Structural, Hash, Clone, Copy)]
pub struct SocksCommand(pub u8);

impl SocksCommand {
    /// The raw command octet.
    pub fn to_u8(&self) -> (r: u8)
        ensures
            r == self.0,
    {
        let SocksCommand(raw) = self;
        *raw
    }
}

/// The address types a request may carry.
#[derive(Debug, PartialEq, Eq, Structural, Hash, Clone, Copy)]
pub enum AddressType {
    V4,
    DOMAINNAME,
    V6,
}

impl AddressType {
    /// The wire octet of this address type.
    pub fn to_u8(&self) -> (r: u8)
        ensures
            *self == AddressType::V4 ==> r == ATYP_V4,
            *self == AddressType::DOMAINNAME ==> r == ATYP_DOMAINNAME,
            *self == AddressType::V6 ==> r == ATYP_V6,
    {
        match self {
            AddressType::V4 => ATYP_V4,
            AddressType::DOMAINNAME => ATYP_DOMAINNAME,
            AddressType::V6 => ATYP_V6,
        }
    }

    /// The address type a wire octet denotes, if any.
    pub fn from_u8(raw: u8) -> (r: Option<AddressType>)
        ensures
            raw == ATYP_V4 ==> r == Some(AddressType::V4),
            raw == ATYP_DOMAINNAME ==> r == Some(AddressType::DOMAINNAME),
            raw == ATYP_V6 ==> r == Some(AddressType::V6),
            raw != ATYP_V4 && raw != ATYP_DOMAINNAME && raw != ATYP_V6 ==> r is None,
    {
        if raw == ATYP_V4 {
            Some(AddressType::V4)
        } else if raw == ATYP_DOMAINNAME {
            Some(AddressType::DOMAINNAME)
        } else if raw == ATYP_V6 {
            Some(AddressType::V6)
        } else {
            None
        }
    }
}

/// The destination a request names: an IP address as its raw octets, or a
/// domain name (UTF-8, at most 255 bytes on the wire).
#[derive(Debug, PartialEq, Eq, Hash)]
pub enum SocksRequestAddress {
    V4(Vec<u8>),
    V6(Vec<u8>),
    DomainName(String),
}

/// A parsed SOCKS request.
#[derive(Debug, PartialEq, Eq, Hash)]
pub struct SocksRequest {
    pub command: SocksCommand,
    pub address: SocksRequestAddress,
    pub port: u16,
}

/// A big-endian 16-bit value from its two octets.
pub open spec fn spec_be16(hi: u8, lo: u8) -> u16 {
    ((hi as int) * 256 + (lo as int)) as u16
}

fn be16(hi: u8, lo: u8) -> (p: u16)
    ensures
        p == spec_be16(hi, lo),
{
    (hi as u16) * 256 + (lo as u16)
}

/// The length in bytes of a complete greeting with the declared method
/// count of `b`: two header octets plus one octet per method.
pub open spec fn hello_len(b: Seq<u8>) -> int
    recommends
        b.len() >= 2,
{
    2 + b[1]
}

/// The method octets a complete greeting `b` offers.
pub open spec fn hello_methods(b: Seq<u8>) -> Seq<AuthenticationMethod>
    recommends
        b.len() >= 2 + b[1],
{
    Seq::new(b[1] as nat, |i: int| AuthenticationMethod(b[2 + i]))
}

/// Whether a complete greeting `b` offers the no-authentication method.
pub open spec fn hello_offers_no_auth(b: Seq<u8>) -> bool
    recommends
        b.len() >= 2 + b[1],
{
    hello_methods(b).contains(AuthenticationMethod(NO_AUTHENTICATION))
}

/// The no-authentication method is offered exactly when one of the
/// declared method octets of a complete greeting is zero.
pub proof fn lemma_offers_no_auth_bytes(b: Seq<u8>)
    requires
        b.len() >= 2 + b[1],
    ensures
        hello_offers_no_auth(b) <==> (exists|i: int|
            2 <= i < hello_len(b) && b[i] == NO_AUTHENTICATION),
{
    if hello_offers_no_auth(b) {
        let k = choose|k: int|
            0 <= k < hello_methods(b).len() && hello_methods(b)[k] == AuthenticationMethod(
                NO_AUTHENTICATION,
            );
        assert(b[2 + k] == NO_AUTHENTICATION);
    }
    if exists|i: int| 2 <= i < hello_len(b) && b[i] == NO_AUTHENTICATION {
        let i = choose|i: int| 2 <= i < hello_len(b) && b[i] == NO_AUTHENTICATION;
        assert(hello_methods(b)[i - 2] == AuthenticationMethod(NO_AUTHENTICATION));
        assert(hello_methods(b).contains(AuthenticationMethod(NO_AUTHENTICATION)));
    }
}

/// A greeting is still incomplete: more bytes must be read before it can
/// be accepted or rejected.
pub open spec fn hello_incomplete(b: Seq<u8>) -> bool {
    b.len() < 2 || (b[0] == SOCKS_VERSION5 && b.len() < hello_len(b))
}

/// A greeting is malformed: it names a protocol version other than 5.
pub open spec fn hello_malformed(b: Seq<u8>) -> bool {
    b.len() >= 2 && b[0] != SOCKS_VERSION5
}

/// A complete, well-formed greeting stands at the front of `b`.
pub open spec fn hello_complete(b: Seq<u8>) -> bool {
    b.len() >= 2 && b[0] == SOCKS_VERSION5 && b.len() >= hello_len(b)
}

/// Empty-method-list law: a greeting that declares zero methods offers
/// nothing, in particular not the no-authentication method, so
/// negotiation fails with the no-acceptable-method selection.
pub proof fn lemma_empty_method_list(b: Seq<u8>)
    requires
        b.len() >= 2,
        b[1] == 0,
    ensures
        !hello_offers_no_auth(b),
{
    assert(hello_methods(b).len() == 0);
}

/// Outcome of parsing the bytes accumulated while awaiting a greeting.
#[derive(Debug, PartialEq, Eq)]
pub enum HelloParse {
    /// The greeting is not complete yet; read more bytes.
    Incomplete,
    /// The greeting names a protocol version other than 5.
    Malformed,
    /// A complete greeting: the offered methods, and how many of the
    /// accumulated bytes the greeting occupied.
    Parsed { methods: Vec<AuthenticationMethod>, consumed: usize },
}

/// Parse a client greeting `[ver, nmethods, methods[nmethods]]` from the
/// bytes accumulated so far.
pub fn parse_client_hello(b: &[u8]) -> (r: HelloParse)
    ensures
        match r {
            HelloParse::Incomplete => hello_incomplete(b@),
            HelloParse::Malformed => hello_malformed(b@),
            HelloParse::Parsed { methods, consumed } => hello_complete(b@) && consumed == hello_len(
                b@,
            ) && methods@ == hello_methods(b@),
        },
{
    if b.len() < 2 {
        return HelloParse::Incomplete;
    }
    let version = b[0];
    if version != SOCKS_VERSION5 {
        return HelloParse::Malformed;
    }
    let n = b[1] as usize;
    if b.len() < 2 + n {
        return HelloParse::Incomplete;
    }
    let mut methods: Vec<AuthenticationMethod> = Vec::new();
    let mut i: usize = 0;
    while i < n
        invariant
            i <= n,
            n + 2 <= b@.len(),
            n == b@[1],
            methods@ =~= hello_methods(b@).take(i as int),
        decreases n - i,
    {
        methods.push(AuthenticationMethod(b[2 + i]));
        i += 1;
    }
    proof {
        assert(methods@ =~= hello_methods(b@));
    }
    HelloParse::Parsed { methods, consumed: 2 + n }
}

/// The domain-name octets of a complete domain request `b`.
pub open spec fn domain_bytes(b: Seq<u8>) -> Seq<u8>
    recommends
        b.len() >= 7 + b[4],
{
    b.subrange(5, 5 + b[4] as int)
}

/// A request is still incomplete: more bytes must be read before it can
/// be accepted or rejected.
pub open spec fn request_incomplete(b: Seq<u8>) -> bool {
    b.len() < 4 || (b[0] == SOCKS_VERSION5 && ((b[3] == ATYP_V4 && b.len() < 10) || (b[3] == ATYP_V6
        && b.len() < 22) || (b[3] == ATYP_DOMAINNAME && (b.len() < 5 || b.len() < 7 + b[4]))))
}

/// A request is malformed beyond replying: wrong protocol version, or a
/// domain name that is not valid UTF-8.
pub open spec fn request_malformed(b: Seq<u8>) -> bool {
    b.len() >= 4 && (b[0] != SOCKS_VERSION5 || (b[3] == ATYP_DOMAINNAME && b.len() >= 5 && b.len()
        >= 7 + b[4] && !valid_utf8(domain_bytes(b))))
}

/// The address-type octet of the request names no known address type.
pub open spec fn request_unknown_atyp(b: Seq<u8>) -> bool {
    b.len() >= 4 && b[0] == SOCKS_VERSION5 && b[3] != ATYP_V4 && b[3] != ATYP_DOMAINNAME && b[3]
        != ATYP_V6
}

/// A complete, well-formed request stands at the front of `b`.
pub open spec fn request_complete(b: Seq<u8>) -> bool {
    b.len() >= 4 && b[0] == SOCKS_VERSION5 && ((b[3] == ATYP_V4 && b.len() >= 10) || (b[3]
        == ATYP_V6 && b.len() >= 22) || (b[3] == ATYP_DOMAINNAME && b.len() >= 7 + b[4]
        && valid_utf8(domain_bytes(b))))
}

/// The length in bytes of the complete request at the front of `b`.
pub open spec fn request_len(b: Seq<u8>) -> int
    recommends
        request_complete(b),
{
    if b[3] == ATYP_V4 {
        10
    } else if b[3] == ATYP_V6 {
        22
    } else {
        7 + b[4]
    }
}

/// The destination port of the complete request at the front of `b`: its
/// last two octets, big endian.
pub open spec fn request_port(b: Seq<u8>) -> u16
    recommends
        request_complete(b),
{
    spec_be16(b[request_len(b) - 2], b[request_len(b) - 1])
}

/// How a parsed request relates to the complete request at the front of
/// `b`: same command and port, and the address the address-type octet
/// announces.
pub open spec fn request_matches(b: Seq<u8>, request: SocksRequest) -> bool
    recommends
        request_complete(b),
{
    &&& request.command == SocksCommand(b[1])
    &&& request.port == request_port(b)
    &&& (b[3] == ATYP_V4 ==> (request.address matches SocksRequestAddress::V4(a) && a@
        == b.subrange(4, 8)))
    &&& (b[3] == ATYP_V6 ==> (request.address matches SocksRequestAddress::V6(a) && a@
        == b.subrange(4, 20)))
    &&& (b[3] == ATYP_DOMAINNAME ==> (request.address matches SocksRequestAddress::DomainName(h)
        && h@ == decode_utf8(domain_bytes(b))))
}

/// Outcome of parsing the bytes accumulated while awaiting a request.
#[derive(Debug, PartialEq, Eq)]
pub enum RequestParse {
    /// The request is not complete yet; read more bytes.
    Incomplete,
    /// Wrong protocol version, or a domain name that is not valid UTF-8:
    /// the session closes without a reply.
    Malformed,
    /// The address-type octet names no known address type: the session
    /// replies with the address-type-not-supported code.
    UnknownAddressType,
    /// A complete request, and how many of the accumulated bytes it
    /// occupied; bytes beyond that count are early relay payload.
    Parsed { request: SocksRequest, consumed: usize },
}

/// Parse a client request `[ver, cmd, rsv, atyp, dst_addr, dst_port]`
/// from the bytes accumulated so far.  The address is four octets for
/// IPv4, sixteen for IPv6, and a length octet followed by that many
/// UTF-8 octets for a domain name.
pub fn parse_socks_request(b: &[u8]) -> (r: RequestParse)
    ensures
        match r {
            RequestParse::Incomplete => request_incomplete(b@),
            RequestParse::Malformed => request_malformed(b@),
            RequestParse::UnknownAddressType => request_unknown_atyp(b@),
            RequestParse::Parsed { request, consumed } => request_complete(b@) && request_matches(
                b@,
                request,
            ) && consumed == request_len(b@),
        },
{
    if b.len() < 4 {
        return RequestParse::Incomplete;
    }
    let version = b[0];
    if version != SOCKS_VERSION5 {
        return RequestParse::Malformed;
    }
    let command = SocksCommand(b[1]);
    let atyp = b[3];
    if atyp == ATYP_V4 {
        if b.len() < 10 {
            return RequestParse::Incomplete;
        }
        let addr = copy_range(b, 4, 8);
        let port = be16(b[8], b[9]);
        RequestParse::Parsed {
            request: SocksRequest { command, address: SocksRequestAddress::V4(addr), port },
            consumed: 10,
        }
    } else if atyp == ATYP_V6 {
        if b.len() < 22 {
            return RequestParse::Incomplete;
        }
        let addr = copy_range(b, 4, 20);
        let port = be16(b[20], b[21]);
        RequestParse::Parsed {
            request: SocksRequest { command, address: SocksRequestAddress::V6(addr), port },
            consumed: 22,
        }
    } else if atyp == ATYP_DOMAINNAME {
        if b.len() < 5 {
            return RequestParse::Incomplete;
        }
        let dlen = b[4] as usize;
        if b.len() < 7 + dlen {
            return RequestParse::Incomplete;
        }
        let raw_domain = copy_range(b, 5, 5 + dlen);
        match string_from_utf8(raw_domain) {
            None => RequestParse::Malformed,
            Some(domain) => {
                let port = be16(b[5 + dlen], b[6 + dlen]);
                RequestParse::Parsed {
                    request: SocksRequest {
                        command,
                        address: SocksRequestAddress::DomainName(domain),
                        port,
                    },
                    consumed: 7 + dlen,
                }
            },
        }
    } else {
        RequestParse::UnknownAddressType
    }
}

/// The ten octets of every reply this library emits: version, the given
/// code, a reserved zero, and a zero IPv4 bind address and port.
pub open spec fn spec_reply(code: u8) -> Seq<u8> {
    seq![SOCKS_VERSION5, code, 0u8, ATYP_V4, 0u8, 0u8, 0u8, 0u8, 0u8, 0u8]
}

/// Frame a reply carrying the given code.
pub fn make_reply(code: u8) -> (r: Vec<u8>)
    ensures
        r@ == spec_reply(code),
{
    let r: Vec<u8> = vec![SOCKS_VERSION5, code, 0u8, ATYP_V4, 0u8, 0u8, 0u8, 0u8, 0u8, 0u8];
    proof {
        assert(r@ =~= spec_reply(code));
    }
    r
}

/// The two octets of a method-selection message choosing `method`.
pub open spec fn spec_method_selection(method: u8) -> Seq<u8> {
    seq![SOCKS_VERSION5, method]
}

/// Frame a method-selection message choosing `method`.
pub fn make_method_selection(method: u8) -> (r: Vec<u8>)
    ensures
        r@ == spec_method_selection(method),
{
    let r: Vec<u8> = vec![SOCKS_VERSION5, method];
    proof {
        assert(r@ =~= spec_method_selection(method));
    }
    r
}

/// Whether the offered methods include the no-authentication method.
pub fn offers_no_authentication(methods: &Vec<AuthenticationMethod>) -> (r: bool)
    ensures
        r == methods@.contains(AuthenticationMethod(NO_AUTHENTICATION)),
{
    let mut i: usize = 0;
    while i < methods.len()
        invariant
            i <= methods@.len(),
            forall|j: int| 0 <= j < i ==> methods@[j] != AuthenticationMethod(NO_AUTHENTICATION),
        decreases methods@.len() - i,
    {
        if methods[i].to_u8() == NO_AUTHENTICATION {
            return true;
        }
        i += 1;
    }
    false
}

/// The name of a command, for logs.
pub fn get_command_name(command: SocksCommand) -> (r: &'static str)
    ensures
        command.0 == COMMAND_CONNECT ==> r@ == "CONNECT"@,
        command.0 == COMMAND_BIND ==> r@ == "BIND"@,
        command.0 == COMMAND_UDP_ASSOCIATE ==> r@ == "UDP_ASSOCIATE"@,
        command.0 != COMMAND_CONNECT && command.0 != COMMAND_BIND && command.0
            != COMMAND_UDP_ASSOCIATE ==> r@ == "?"@,
{
    if command.0 == COMMAND_CONNECT {
        "CONNECT"
    } else if command.0 == COMMAND_BIND {
        "BIND"
    } else if command.0 == COMMAND_UDP_ASSOCIATE {
        "UDP_ASSOCIATE"
    } else {
        "?"
    }
}

/// Copy `b[from..to]` into a fresh vector.
fn copy_range(b: &[u8], from: usize, to: usize) -> (v: Vec<u8>)
    requires
        from <= to <= b@.len(),
    ensures
        v@ == b@.subrange(from as int, to as int),
{
    let mut v: Vec<u8> = Vec::new();
    let mut i: usize = from;
    while i < to
        invariant
            from <= i <= to <= b@.len(),
            v@ =~= b@.subrange(from as int, i as int),
        decreases to - i,
    {
        v.push(b[i]);
        i += 1;
    }
    proof {
        assert(v@ =~= b@.subrange(from as int, to as int));
    }
    v
}

/// Relies on `String::from_utf8`: it returns `Ok` exactly when the bytes
/// are valid UTF-8, and the string's characters then decode those bytes.
#[verifier::external_body]
fn string_from_utf8(bytes: Vec<u8>) -> (r: Option<String>)
    ensures
        r is Some <==> valid_utf8(bytes@),
        r matches Some(s) ==> s@ == decode_utf8(bytes@),
{
    String::from_utf8(bytes).ok()
}

} // verus!

