//! The SOCKS5 wire codec: address types, commands, authentication method
//! negotiation, request encoding and parsing, and the per-session
//! negotiation state machine.

use vstd::prelude::*;

verus! {

/// The protocol version carried in every SOCKS5 frame.
pub const SOCKS_VERSION: u8 = 0x05;

/// The reserved byte of a request frame.
pub const RESERVED: u8 = 0x00;

/// Wire code of the "no authentication required" method.
pub const NO_AUTH: u8 = 0x00;

/// Wire code of the "username/password" method.
pub const USER_PASS: u8 = 0x02;

/// Sentinel method code replied when no offered method is acceptable.
pub const NO_ACCEPTABLE: u8 = 0xFF;

/// Client authentication methods.
pub enum AuthMethods {
    /// No authentication.
    NoAuth,
    /// Authenticate with a username / password.
    UserPass,
    /// Cannot authenticate: sentinel used only in the failure reply.
    NoMethods,
}

impl AuthMethods {
    /// The byte that stands for this method on the wire.
    pub open spec fn wire_byte(self) -> u8 {
        match self {
            AuthMethods::NoAuth => NO_AUTH,
            AuthMethods::UserPass => USER_PASS,
            AuthMethods::NoMethods => NO_ACCEPTABLE,
        }
    }

    /// The byte that stands for this method on the wire.
    pub fn code(&self) -> (r: u8)
        ensures
            r == self.wire_byte(),
    {
        match self {
            AuthMethods::NoAuth => NO_AUTH,
            AuthMethods::UserPass => USER_PASS,
            AuthMethods::NoMethods => NO_ACCEPTABLE,
        }
    }
}

/// DST.addr variant types.
#[derive(Clone, Copy, Debug, PartialEq, Eq, Structural)]
pub enum AddrType {
    V4,
    Domain,
    V6,
}

impl AddrType {
    /// The address-type byte of this variant on the wire.
    pub open spec fn wire_byte(self) -> u8 {
        match self {
            AddrType::V4 => 1,
            AddrType::Domain => 3,
            AddrType::V6 => 4,
        }
    }

    /// Which variant an address-type code denotes, if any.
    pub open spec fn of_code(n: usize) -> Option<AddrType> {
        if n == 1 {
            Some(AddrType::V4)
        } else if n == 3 {
            Some(AddrType::Domain)
        } else if n == 4 {
            Some(AddrType::V6)
        } else {
            None
        }
    }

    /// Parse byte to address type.
    pub fn from(n: usize) -> (r: Option<AddrType>)
        ensures
            r == AddrType::of_code(n),
    {
        match n {
            1 => Some(AddrType::V4),
            3 => Some(AddrType::Domain),
            4 => Some(AddrType::V6),
            _ => None,
        }
    }

    /// The address-type byte of this variant on the wire.
    pub fn to_byte(&self) -> (r: u8)
        ensures
            r == self.wire_byte(),
    {
        match self {
            AddrType::V4 => 1,
            AddrType::Domain => 3,
            AddrType::V6 => 4,
        }
    }
}

/// Decoding a variant's wire byte yields that variant back.
pub proof fn lemma_addr_type_code(t: AddrType)
    ensures
        AddrType::of_code(t.wire_byte() as usize) == Some(t),
{
}

/// SOCKS5 CMD type.
#[derive(Clone, Copy, Debug, PartialEq, Eq, Structural)]
pub enum SockCommand {
    Connect,
    Bind,
    UdpAssociate,
}

impl SockCommand {
    /// The command byte of this variant on the wire.
    pub open spec fn wire_byte(self) -> u8 {
        match self {
            SockCommand::Connect => 1,
            SockCommand::Bind => 2,
            SockCommand::UdpAssociate => 3,
        }
    }

    /// Which variant a command code denotes, if any.
    pub open spec fn of_code(n: usize) -> Option<SockCommand> {
        if n == 1 {
            Some(SockCommand::Connect)
        } else if n == 2 {
            Some(SockCommand::Bind)
        } else if n == 3 {
            Some(SockCommand::UdpAssociate)
        } else {
            None
        }
    }

    /// Parse byte to command.
    pub fn from(n: usize) -> (r: Option<SockCommand>)
        ensures
            r == SockCommand::of_code(n),
    {
        match n {
            1 => Some(SockCommand::Connect),
            2 => Some(SockCommand::Bind),
            3 => Some(SockCommand::UdpAssociate),
            _ => None,
        }
    }

    /// The command byte of this variant on the wire.
    pub fn to_byte(&self) -> (r: u8)
        ensures
            r == self.wire_byte(),
    {
        match self {
            SockCommand::Connect => 1,
            SockCommand::Bind => 2,
            SockCommand::UdpAssociate => 3,
        }
    }
}

/// Decoding a variant's wire byte yields that variant back.
pub proof fn lemma_sock_command_code(c: SockCommand)
    ensures
        SockCommand::of_code(c.wire_byte() as usize) == Some(c),
{
}

/// Why a connection is torn down at the protocol layer.
#[derive(Clone, Copy, Debug, PartialEq, Eq, Structural)]
pub enum ProtocolError {
    /// The version byte was not the SOCKS5 version.
    BadVersion,
    /// The command byte named no known command.
    BadCommand,
    /// The address-type byte named no known address type.
    BadAddrType,
    /// The frame ended before its structure was complete.
    Truncated,
    /// No offered authentication method was acceptable.
    NoAcceptableMethod,
}

/// The mathematical model of a parsed request: what [`SocksRequest`] holds,
/// with its address as a sequence of bytes.
pub struct RequestModel {
    pub version: u8,
    pub command: SockCommand,
    pub addr_type: AddrType,
    pub addr: Seq<u8>,
    pub port: u16,
}

impl RequestModel {
    /// A request whose address field fits its address type: 4 octets for V4,
    /// 16 octets for V6, and at most 255 bytes (one length byte) for a domain.
    pub open spec fn wf(self) -> bool {
        &&& self.version == SOCKS_VERSION
        &&& match self.addr_type {
            AddrType::V4 => self.addr.len() == 4,
            AddrType::V6 => self.addr.len() == 16,
            AddrType::Domain => self.addr.len() <= 255,
        }
    }
}

/// Proxy user request: parsed once from the wire, consumed by dispatch,
/// never mutated.
#[derive(Clone, Debug, PartialEq, Eq)]
pub struct SocksRequest {
    pub version: u8,
    pub command: SockCommand,
    pub addr_type: AddrType,
    pub addr: Vec<u8>,
    pub port: u16,
}

impl View for SocksRequest {
    type V = RequestModel;

    open spec fn view(&self) -> RequestModel {
        RequestModel {
            version: self.version,
            command: self.command,
            addr_type: self.addr_type,
            addr: self.addr@,
            port: self.port,
        }
    }
}

/// The big-endian 16-bit value held by two wire bytes.
pub open spec fn spec_port(hi: u8, lo: u8) -> u16 {
    (hi * 256 + lo) as u16
}

/// The high wire byte of a big-endian 16-bit value.
pub open spec fn spec_port_hi(p: u16) -> u8 {
    (p / 256) as u8
}

/// The low wire byte of a big-endian 16-bit value.
pub open spec fn spec_port_lo(p: u16) -> u8 {
    (p % 256) as u8
}

/// Splitting a 16-bit value into its two big-endian bytes and reading them
/// back yields the value.
pub proof fn lemma_port_roundtrip(p: u16)
    ensures
        spec_port(spec_port_hi(p), spec_port_lo(p)) == p,
{
    assert((p / 256) * 256 + (p % 256) == p) by (nonlinear_arith);
    assert(p / 256 <= 255) by (nonlinear_arith);
}

/// The address field of an encoded request: a domain is preceded by its
/// length byte, the fixed forms are the raw octets.
pub open spec fn spec_encode_addr(m: RequestModel) -> Seq<u8> {
    if m.addr_type == AddrType::Domain {
        seq![m.addr.len() as u8] + m.addr
    } else {
        m.addr
    }
}

/// The full encoded request frame:
/// `[version, cmd, reserved, addr_type, addr.., port_hi, port_lo]`.
pub open spec fn spec_encode_request(m: RequestModel) -> Seq<u8> {
    seq![m.version, m.command.wire_byte(), RESERVED, m.addr_type.wire_byte()]
        + spec_encode_addr(m) + seq![spec_port_hi(m.port), spec_port_lo(m.port)]
}

/// Parse the body of a request with a fixed-size address of `n` octets.
/// `b` is the whole frame, header included.
pub open spec fn spec_parse_fixed(b: Seq<u8>, cmd: SockCommand, at: AddrType, n: int) -> Result<
    (RequestModel, nat),
    ProtocolError,
> {
    if b.len() < 6 + n {
        Err(ProtocolError::Truncated)
    } else {
        Ok(
            (
                RequestModel {
                    version: SOCKS_VERSION,
                    command: cmd,
                    addr_type: at,
                    addr: b.subrange(4, 4 + n),
                    port: spec_port(b[4 + n], b[5 + n]),
                },
                (6 + n) as nat,
            ),
        )
    }
}

/// Parse a request frame from the start of `b`. On success the result
/// carries the request and the number of bytes the frame occupies; trailing
/// bytes beyond the frame are left alone.
pub open spec fn spec_parse_request(b: Seq<u8>) -> Result<(RequestModel, nat), ProtocolError> {
    if b.len() < 4 {
        Err(ProtocolError::Truncated)
    } else if b[0] != SOCKS_VERSION {
        Err(ProtocolError::BadVersion)
    } else if SockCommand::of_code(b[1] as usize) is None {
        Err(ProtocolError::BadCommand)
    } else if AddrType::of_code(b[3] as usize) is None {
        Err(ProtocolError::BadAddrType)
    } else {
        let cmd = SockCommand::of_code(b[1] as usize)->0;
        match AddrType::of_code(b[3] as usize)->0 {
            AddrType::V4 => spec_parse_fixed(b, cmd, AddrType::V4, 4),
            AddrType::V6 => spec_parse_fixed(b, cmd, AddrType::V6, 16),
            AddrType::Domain => {
                if b.len() < 5 {
                    Err(ProtocolError::Truncated)
                } else {
                    let l = b[4] as int;
                    if b.len() < 7 + l {
                        Err(ProtocolError::Truncated)
                    } else {
                        Ok(
                            (
                                RequestModel {
                                    version: SOCKS_VERSION,
                                    command: cmd,
                                    addr_type: AddrType::Domain,
                                    addr: b.subrange(5, 5 + l),
                                    port: spec_port(b[5 + l], b[6 + l]),
                                },
                                (7 + l) as nat,
                            ),
                        )
                    }
                }
            },
        }
    }
}

/// Copy `len` bytes of `src` starting at `start` into a fresh vector.
fn copy_range(src: &Vec<u8>, start: usize, len: usize) -> (r: Vec<u8>)
    requires
        start + len <= src.len(),
    ensures
        r@ == src@.subrange(start as int, start as int + len as int),
{
    let mut out: Vec<u8> = Vec::new();
    let mut i: usize = 0;
    while i < len
        invariant
            i <= len,
            start + len <= src.len(),
            out@ == src@.subrange(start as int, start as int + i as int),
        decreases len - i,
    {
        out.push(src[start + i]);
        assert(out@ =~= src@.subrange(start as int, start as int + i as int + 1));
        i += 1;
    }
    out
}

/// Read the big-endian port held by two wire bytes.
pub fn decode_port(hi: u8, lo: u8) -> (r: u16)
    ensures
        r == spec_port(hi, lo),
{
    (hi as u16) * 256 + (lo as u16)
}

/// Encode a well-formed request into its wire frame.
pub fn encode_request(req: &SocksRequest) -> (r: Vec<u8>)
    requires
        req@.wf(),
    ensures
        r@ == spec_encode_request(req@),
{
    let mut out: Vec<u8> = Vec::new();
    out.push(req.version);
    out.push(req.command.to_byte());
    out.push(RESERVED);
    out.push(req.addr_type.to_byte());
    if matches!(req.addr_type, AddrType::Domain) {
        out.push(req.addr.len() as u8);
    }
    let mut i: usize = 0;
    let ghost prefix: Seq<u8> = out@;
    while i < req.addr.len()
        invariant
            i <= req.addr.len(),
            out@ == prefix + req.addr@.subrange(0, i as int),
        decreases req.addr.len() - i,
    {
        out.push(req.addr[i]);
        assert(out@ =~= prefix + req.addr@.subrange(0, i as int + 1));
        i += 1;
    }
    assert(req.port / 256 <= 255) by (nonlinear_arith);
    out.push((req.port / 256) as u8);
    out.push((req.port % 256) as u8);
    assert(out@ =~= spec_encode_request(req@));
    out
}

/// Parse a request frame from the start of `input`, exactly as
/// [`spec_parse_request`] describes: on success the parsed request is
/// well formed and the returned count is the frame's length.
pub fn parse_request(input: &Vec<u8>) -> (r: Result<(SocksRequest, usize), ProtocolError>)
    ensures
        match spec_parse_request(input@) {
            Ok(p) => r matches Ok(q) && q.0@ == p.0 && q.1 == p.1 && p.0.wf(),
            Err(e) => r matches Err(e2) && e2 == e,
        },
{
    if input.len() < 4 {
        return Err(ProtocolError::Truncated);
    }
    if input[0] != SOCKS_VERSION {
        return Err(ProtocolError::BadVersion);
    }
    let command = match SockCommand::from(input[1] as usize) {
        Some(c) => c,
        None => {
            return Err(ProtocolError::BadCommand);
        },
    };
    let addr_type = match AddrType::from(input[3] as usize) {
        Some(t) => t,
        None => {
            return Err(ProtocolError::BadAddrType);
        },
    };
    match addr_type {
        AddrType::V4 => {
            if input.len() < 10 {
                return Err(ProtocolError::Truncated);
            }
            let addr = copy_range(input, 4, 4);
            let port = decode_port(input[8], input[9]);
            Ok((SocksRequest { version: SOCKS_VERSION, command, addr_type, addr, port }, 10))
        },
        AddrType::V6 => {
            if input.len() < 22 {
                return Err(ProtocolError::Truncated);
            }
            let addr = copy_range(input, 4, 16);
            let port = decode_port(input[20], input[21]);
            Ok((SocksRequest { version: SOCKS_VERSION, command, addr_type, addr, port }, 22))
        },
        AddrType::Domain => {
            if input.len() < 5 {
                return Err(ProtocolError::Truncated);
            }
            let dlen = input[4] as usize;
            if input.len() < 7 + dlen {
                return Err(ProtocolError::Truncated);
            }
            let addr = copy_range(input, 5, dlen);
            let port = decode_port(input[5 + dlen], input[6 + dlen]);
            Ok((SocksRequest { version: SOCKS_VERSION, command, addr_type, addr, port }, 7 + dlen))
        },
    }
}

/// Round trip: encoding any well-formed request and parsing the frame back
/// reproduces the request exactly, consuming the whole frame. This covers
/// each address form: the four V4 octets, the sixteen V6 octets, and a
/// domain of any length up to 255, together with the big-endian port.
pub proof fn lemma_encode_parse_roundtrip(m: RequestModel)
    requires
        m.wf(),
    ensures
        spec_parse_request(spec_encode_request(m)) == Ok::<_, ProtocolError>(
            (m, spec_encode_request(m).len()),
        ),
{
    let b = spec_encode_request(m);
    lemma_sock_command_code(m.command);
    lemma_addr_type_code(m.addr_type);
    lemma_port_roundtrip(m.port);
    match m.addr_type {
        AddrType::V4 => {
            assert(b.len() == 10);
            assert(b.subrange(4, 8) =~= m.addr);
        },
        AddrType::V6 => {
            assert(b.len() == 22);
            assert(b.subrange(4, 20) =~= m.addr);
        },
        AddrType::Domain => {
            let l = m.addr.len() as int;
            assert(b.len() == 7 + l);
            assert(b[4] == l as u8);
            assert(b.subrange(5, 5 + l) =~= m.addr);
        },
    }
}

/// The offered methods kept in order, restricted to those in the accepted
/// set.
pub open spec fn spec_filter_methods(accepted: Seq<u8>, offered: Seq<u8>) -> Seq<u8>
    decreases offered.len(),
{
    if offered.len() == 0 {
        Seq::empty()
    } else {
        let rest = spec_filter_methods(accepted, offered.drop_last());
        if accepted.contains(offered.last()) {
            rest.push(offered.last())
        } else {
            rest
        }
    }
}

/// Pushing an element adds exactly that element to what a sequence holds.
proof fn lemma_push_contains(s: Seq<u8>, x: u8, m: u8)
    ensures
        s.push(x).contains(m) <==> s.contains(m) || m == x,
{
    assert(s.push(x)[s.len() as int] == x);
    if s.contains(m) {
        let i = choose|i: int| 0 <= i < s.len() && s[i] == m;
        assert(s.push(x)[i] == m);
    }
    if s.push(x).contains(m) && m != x {
        let i = choose|i: int| 0 <= i < s.push(x).len() && s.push(x)[i] == m;
        assert(i < s.len());
        assert(s[i] == m);
    }
}

/// Dropping the last element loses exactly that element's occurrences there.
proof fn lemma_drop_last_contains(s: Seq<u8>, m: u8)
    requires
        s.len() > 0,
    ensures
        s.contains(m) <==> s.drop_last().contains(m) || s.last() == m,
{
    assert(s[s.len() - 1] == s.last());
    if s.drop_last().contains(m) {
        let i = choose|i: int| 0 <= i < s.drop_last().len() && s.drop_last()[i] == m;
        assert(s[i] == m);
    }
    if s.contains(m) && s.last() != m {
        let i = choose|i: int| 0 <= i < s.len() && s[i] == m;
        assert(i < s.len() - 1);
        assert(s.drop_last()[i] == m);
    }
}

/// A method survives the intersection exactly when both sides hold it.
pub proof fn lemma_filter_methods_contains(accepted: Seq<u8>, offered: Seq<u8>, m: u8)
    ensures
        spec_filter_methods(accepted, offered).contains(m) <==> accepted.contains(m)
            && offered.contains(m),
    decreases offered.len(),
{
    if offered.len() > 0 {
        lemma_filter_methods_contains(accepted, offered.drop_last(), m);
        lemma_drop_last_contains(offered, m);
        let rest = spec_filter_methods(accepted, offered.drop_last());
        if accepted.contains(offered.last()) {
            lemma_push_contains(rest, offered.last(), m);
        }
    }
}

/// Whether `v` holds the byte `x`.
fn contains_byte(v: &Vec<u8>, x: u8) -> (r: bool)
    ensures
        r <==> v@.contains(x),
{
    let mut i: usize = 0;
    while i < v.len()
        invariant
            i <= v.len(),
            forall|j: int| 0 <= j < i ==> v@[j] != x,
        decreases v.len() - i,
    {
        if v[i] == x {
            return true;
        }
        i += 1;
    }
    false
}

/// The offered methods that the accepted set admits, in offer order.
pub fn filter_methods(accepted: &Vec<u8>, offered: &Vec<u8>) -> (r: Vec<u8>)
    ensures
        r@ == spec_filter_methods(accepted@, offered@),
{
    let mut out: Vec<u8> = Vec::new();
    let mut i: usize = 0;
    while i < offered.len()
        invariant
            i <= offered.len(),
            out@ == spec_filter_methods(accepted@, offered@.subrange(0, i as int)),
        decreases offered.len() - i,
    {
        let m = offered[i];
        proof {
            let pre = offered@.subrange(0, i as int + 1);
            assert(pre.drop_last() =~= offered@.subrange(0, i as int));
            assert(pre.last() == offered@[i as int]);
        }
        if contains_byte(accepted, m) {
            out.push(m);
        }
        i += 1;
    }
    proof {
        assert(offered@.subrange(0, offered@.len() as int) =~= offered@);
    }
    out
}

/// Negotiation succeeds exactly when both the locally accepted set and the
/// peer's offer hold the no-authentication method.
pub open spec fn spec_no_auth_acceptable(accepted: Seq<u8>, offered: Seq<u8>) -> bool {
    accepted.contains(NO_AUTH) && offered.contains(NO_AUTH)
}

/// Choose the method reply for an offer. The reply is the two-byte frame
/// `[version, chosen]`; the boolean says whether the session proceeds.
/// Whenever both sides admit no-authentication the chosen method is
/// `NO_AUTH` and the session proceeds; otherwise the chosen method is the
/// `NO_ACCEPTABLE` sentinel and the connection is to be closed.
pub fn select_method(accepted: &Vec<u8>, offered: &Vec<u8>) -> (r: (Vec<u8>, bool))
    ensures
        r.0@.len() == 2,
        r.0@[0] == SOCKS_VERSION,
        r.1 <==> spec_no_auth_acceptable(accepted@, offered@),
        r.1 ==> r.0@[1] == NO_AUTH,
        !r.1 ==> r.0@[1] == NO_ACCEPTABLE,
{
    let methods = filter_methods(accepted, offered);
    proof {
        lemma_filter_methods_contains(accepted@, offered@, NO_AUTH);
    }
    let mut reply: Vec<u8> = Vec::new();
    reply.push(SOCKS_VERSION);
    if contains_byte(&methods, NO_AUTH) {
        reply.push(NO_AUTH);
        (reply, true)
    } else {
        reply.push(NO_ACCEPTABLE);
        (reply, false)
    }
}

/// The fixed success reply to a CONNECT: version, success code, reserved,
/// V4 address type, the loopback address, port zero. The loopback/zero
/// fields are deliberate: the real bound address is never reported.
pub open spec fn spec_success_reply() -> Seq<u8> {
    seq![SOCKS_VERSION, 0u8, RESERVED, 1u8, 127u8, 0u8, 0u8, 1u8, 0u8, 0u8]
}

/// The fixed success reply frame for a completed CONNECT.
pub fn connect_success_reply() -> (r: Vec<u8>)
    ensures
        r@ == spec_success_reply(),
{
    let r: Vec<u8> = vec![SOCKS_VERSION, 0u8, RESERVED, 1u8, 127u8, 0u8, 0u8, 1u8, 0u8, 0u8];
    assert(r@ =~= spec_success_reply());
    r
}

/// The eight big-endian 16-bit groups of a 16-octet V6 address.
pub fn v6_groups(addr: &Vec<u8>) -> (r: Vec<u16>)
    requires
        addr@.len() == 16,
    ensures
        r@.len() == 8,
        forall|i: int| 0 <= i < 8 ==> r@[i] == spec_port(addr@[2 * i], addr@[2 * i + 1]),
{
    let mut out: Vec<u16> = Vec::new();
    let mut i: usize = 0;
    while i < 8
        invariant
            i <= 8,
            addr@.len() == 16,
            out@.len() == i,
            forall|j: int| 0 <= j < i ==> out@[j] == spec_port(addr@[2 * j], addr@[2 * j + 1]),
        decreases 8 - i,
    {
        let g = decode_port(addr[2 * i], addr[2 * i + 1]);
        out.push(g);
        i += 1;
    }
    out
}

/// First preflight byte written by the agent right after connecting.
pub const PREFLIGHT_0: u8 = 0x22;

/// Second preflight byte written by the agent right after connecting.
pub const PREFLIGHT_1: u8 = 0x44;

/// The two-byte preflight magic that a genuine agent connection opens with.
pub open spec fn spec_preflight() -> Seq<u8> {
    seq![PREFLIGHT_0, PREFLIGHT_1]
}

/// The preflight magic, as the agent writes it.
pub fn preflight_magic() -> (r: Vec<u8>)
    ensures
        r@ == spec_preflight(),
{
    let r: Vec<u8> = vec![PREFLIGHT_0, PREFLIGHT_1];
    assert(r@ =~= spec_preflight());
    r
}

/// Whether the first bytes of a backend connection are the preflight magic.
pub fn preflight_ok(buf: &Vec<u8>) -> (r: bool)
    ensures
        r <==> buf@ == spec_preflight(),
{
    if buf.len() == 2 && buf[0] == PREFLIGHT_0 && buf[1] == PREFLIGHT_1 {
        assert(buf@ =~= spec_preflight());
        true
    } else {
        assert(buf@ != spec_preflight());
        false
    }
}

/// Where a negotiation session stands.
#[derive(Clone, Copy, Debug, PartialEq, Eq, Structural)]
pub enum NegotiationState {
    /// Nothing read yet; the greeting header comes next.
    Start,
    /// Version accepted; the offered method bytes come next.
    AuthNegotiate,
    /// Method agreed; the request frame comes next.
    RequestParse,
    /// A CONNECT was dispatched; only raw relaying follows.
    Relaying,
    /// The request parsed but named a command that is not acted on.
    Closed,
    /// A protocol violation closed the connection.
    ErrorClosed,
}

/// What dispatch decides for a parsed request.
#[derive(Clone, Copy, Debug, PartialEq, Eq, Structural)]
pub enum Dispatch {
    /// CONNECT: open the outbound connection and relay.
    Connect,
    /// BIND or UDP ASSOCIATE: a valid parse that produces no action.
    ParsedUnsupported,
}

/// The SOCKS5 state machine run by the agent on one connection. It decides
/// every reply and transition; the caller reads and writes the bytes.
pub struct SocksNegotiator {
    /// Where the session stands.
    pub state: NegotiationState,
    /// The locally configured accepted method set.
    pub auth_methods: Vec<u8>,
    /// The method count announced by the greeting header.
    pub auth_nmethods: u8,
    /// The version byte of the greeting header.
    pub socks_version: u8,
}

impl SocksNegotiator {
    /// A fresh session with the given accepted method set.
    pub fn new(auth_methods: Vec<u8>) -> (r: SocksNegotiator)
        ensures
            r.state == NegotiationState::Start,
            r.auth_methods@ == auth_methods@,
            r.auth_nmethods == 0,
            r.socks_version == 0,
    {
        SocksNegotiator {
            state: NegotiationState::Start,
            auth_methods,
            auth_nmethods: 0,
            socks_version: 0,
        }
    }

    /// Version check on the greeting header `(version, nmethods)`. A wrong
    /// version closes the connection without a reply; otherwise the session
    /// proceeds to method negotiation, expecting `nmethods` method bytes.
    pub fn on_greeting(&mut self, version: u8, nmethods: u8) -> (ok: bool)
        requires
            old(self).state == NegotiationState::Start,
        ensures
            final(self).auth_methods == old(self).auth_methods,
            final(self).socks_version == version,
            final(self).auth_nmethods == nmethods,
            ok <==> version == SOCKS_VERSION,
            ok ==> final(self).state == NegotiationState::AuthNegotiate,
            !ok ==> final(self).state == NegotiationState::ErrorClosed,
    {
        self.socks_version = version;
        self.auth_nmethods = nmethods;
        if version == SOCKS_VERSION {
            self.state = NegotiationState::AuthNegotiate;
            true
        } else {
            self.state = NegotiationState::ErrorClosed;
            false
        }
    }

    /// Method negotiation on the offered method bytes. The returned frame is
    /// the two-byte reply to send. When no-authentication is acceptable to
    /// both sides the session proceeds to request parsing; otherwise the
    /// sentinel is replied and the connection is to be closed.
    pub fn on_methods(&mut self, offered: &Vec<u8>) -> (r: (Vec<u8>, bool))
        requires
            old(self).state == NegotiationState::AuthNegotiate,
        ensures
            final(self).auth_methods == old(self).auth_methods,
            final(self).auth_nmethods == old(self).auth_nmethods,
            final(self).socks_version == old(self).socks_version,
            r.0@.len() == 2,
            r.0@[0] == SOCKS_VERSION,
            r.1 <==> spec_no_auth_acceptable(old(self).auth_methods@, offered@),
            r.1 ==> r.0@[1] == NO_AUTH && final(self).state == NegotiationState::RequestParse,
            !r.1 ==> r.0@[1] == NO_ACCEPTABLE && final(self).state
                == NegotiationState::ErrorClosed,
    {
        let (reply, proceed) = select_method(&self.auth_methods, offered);
        if proceed {
            self.state = NegotiationState::RequestParse;
        } else {
            self.state = NegotiationState::ErrorClosed;
        }
        (reply, proceed)
    }

    /// Request parsing and dispatch on a request frame. A parse error closes
    /// the connection; a CONNECT moves the session to relaying; BIND and UDP
    /// ASSOCIATE are parsed but produce no action and end the session.
    pub fn on_request(&mut self, input: &Vec<u8>) -> (r: Result<
        (SocksRequest, Dispatch),
        ProtocolError,
    >)
        requires
            old(self).state == NegotiationState::RequestParse,
        ensures
            final(self).auth_methods == old(self).auth_methods,
            final(self).auth_nmethods == old(self).auth_nmethods,
            final(self).socks_version == old(self).socks_version,
            match spec_parse_request(input@) {
                Ok(p) => r matches Ok(q) && q.0@ == p.0 && p.0.wf() && (q.1 == Dispatch::Connect
                    <==> p.0.command == SockCommand::Connect) && (p.0.command
                    == SockCommand::Connect ==> final(self).state == NegotiationState::Relaying)
                    && (p.0.command != SockCommand::Connect ==> q.1 == Dispatch::ParsedUnsupported
                    && final(self).state == NegotiationState::Closed),
                Err(e) => r matches Err(e2) && e2 == e && final(self).state
                    == NegotiationState::ErrorClosed,
            },
    {
        match parse_request(input) {
            Ok((req, _consumed)) => {
                match req.command {
                    SockCommand::Connect => {
                        self.state = NegotiationState::Relaying;
                        Ok((req, Dispatch::Connect))
                    },
                    SockCommand::Bind => {
                        self.state = NegotiationState::Closed;
                        Ok((req, Dispatch::ParsedUnsupported))
                    },
                    SockCommand::UdpAssociate => {
                        self.state = NegotiationState::Closed;
                        Ok((req, Dispatch::ParsedUnsupported))
                    },
                }
            },
            Err(e) => {
                self.state = NegotiationState::ErrorClosed;
                Err(e)
            },
        }
    }
}

} // verus!
