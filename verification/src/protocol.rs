use vstd::prelude::*;
use vstd::utf8::encode_utf8;

verus! {

/// The four little-endian bytes of a `u32`, as they stand on the wire: the
/// lowest byte first.
pub open spec fn u32_wire(x: u32) -> Seq<u8> {
    seq![
        (x % 0x100) as u8,
        (x / 0x100 % 0x100) as u8,
        (x / 0x1_0000 % 0x100) as u8,
        (x / 0x100_0000) as u8,
    ]
}

/// The number that four little-endian bytes stand for.
pub open spec fn u32_of_wire(bytes: Seq<u8>) -> int {
    bytes[0] + 0x100 * bytes[1] + 0x1_0000 * bytes[2] + 0x100_0000 * bytes[3]
}

/// A string on the wire: its UTF-8 byte length as a `u32` (truncated to 32
/// bits, as the length is cast), followed by the UTF-8 bytes themselves.
pub open spec fn string_wire(s: Seq<char>) -> Seq<u8> {
    u32_wire(wire_length(encode_utf8(s).len())) + encode_utf8(s)
}

/// A length as the 32-bit field that carries it: the length modulo 2^32.
pub open spec fn wire_length(n: nat) -> u32 {
    (n % 0x1_0000_0000) as u32
}

/// The 32-bit length field for a length: the length cast to `u32`, which
/// keeps its low 32 bits.
pub(crate) fn length_field(n: usize) -> (field: u32)
    ensures
        field == wire_length(n as nat),
{
    let wide: u64 = n as u64;
    (wide % 0x1_0000_0000) as u32
}

/// A type that can be written in the binary protocol format; `encoding` is
/// the bytes that `encode` writes.
pub trait BinaryEncode {
    spec fn encoding(&self) -> Seq<u8>;

    fn encode(&self) -> (bytes: Vec<u8>)
        ensures
            bytes@ == self.encoding(),
    ;
}

/// A type that can be read back from the binary protocol format.
///
/// `decodable` says on which inputs `decode` returns a value.
pub trait BinaryDecode: Sized {
    spec fn decodable(data: Seq<u8>) -> bool;

    fn decode(data: &[u8]) -> Self
        requires
            Self::decodable(data@),
    ;
}

impl BinaryEncode for u32 {
    open spec fn encoding(&self) -> Seq<u8> {
        u32_wire(*self)
    }

    fn encode(&self) -> (bytes: Vec<u8>)
        ensures
            bytes@ == u32_wire(*self),
            // Four bytes, lowest first, that add up to the number again.
            bytes@.len() == 4,
            bytes@[0] + 0x100 * bytes@[1] + 0x1_0000 * bytes@[2] + 0x100_0000 * bytes@[3] == *self,
    {
        let x: u32 = *self;
        let mut bytes: Vec<u8> = Vec::new();
        bytes.push((x % 0x100) as u8);
        bytes.push((x / 0x100 % 0x100) as u8);
        bytes.push((x / 0x1_0000 % 0x100) as u8);
        bytes.push((x / 0x100_0000) as u8);
        assert(bytes@ =~= u32_wire(x));
        bytes
    }
}

impl BinaryEncode for String {
    open spec fn encoding(&self) -> Seq<u8> {
        string_wire(self@)
    }

    fn encode(&self) -> (bytes: Vec<u8>)
        ensures
            bytes@ == string_wire(self@),
            // The UTF-8 bytes of the string follow four bytes that give their
            // count (modulo 2^32), lowest byte first.
            bytes@.len() == 4 + encode_utf8(self@).len(),
            bytes@.skip(4) == encode_utf8(self@),
            bytes@[0] + 0x100 * bytes@[1] + 0x1_0000 * bytes@[2] + 0x100_0000 * bytes@[3]
                == encode_utf8(self@).len() % 0x1_0000_0000,
    {
        let content: &[u8] = self.as_str().as_bytes();
        let mut buf = length_field(content.len()).encode();
        let ghost prefix = buf@;
        buf.extend_from_slice(content);
        assert(buf@ =~= prefix + content@);
        buf
    }
}

/// The request that logs a client in to the server.
#[derive(Debug)]
pub struct LoginRequest {
    pub username: String,
    pub password: String,
    pub version_number: u32,
    pub hash: String,
    pub minor_version: u32,
}

impl LoginRequest {
    /// The bytes of a login request: username, password, version number,
    /// hash and minor version, each in its wire format, in that order.
    pub open spec fn wire(&self) -> Seq<u8> {
        string_wire(self.username@) + string_wire(self.password@) + u32_wire(self.version_number)
            + string_wire(self.hash@) + u32_wire(self.minor_version)
    }
}

impl BinaryEncode for LoginRequest {
    open spec fn encoding(&self) -> Seq<u8> {
        self.wire()
    }

    fn encode(&self) -> (bytes: Vec<u8>)
        ensures
            bytes@ == self.wire(),
            // The fields in their declared order, each as it encodes alone.
            bytes@ == self.username.encoding() + self.password.encoding()
                + self.version_number.encoding() + self.hash.encoding()
                + self.minor_version.encoding(),
    {
        let mut buf = self.username.encode();
        let mut part = self.password.encode();
        buf.append(&mut part);
        let mut part = self.version_number.encode();
        buf.append(&mut part);
        let mut part = self.hash.encode();
        buf.append(&mut part);
        let mut part = self.minor_version.encode();
        buf.append(&mut part);
        buf
    }
}

/// What the server answers to an accepted login.
#[derive(Debug)]
pub struct LoginSuccess {
    greet: String,
    own_ip_address: u32,
    hash: String,
    is_supporter: bool,
}

/// Reading a login success is not implemented: no input can be decoded.
impl BinaryDecode for LoginSuccess {
    open spec fn decodable(data: Seq<u8>) -> bool {
        false
    }

    fn decode(data: &[u8]) -> Self {
        vstd::pervasive::unreached()
    }
}

/// Why the server refused a login.
#[derive(Debug)]
pub enum LoginFailure {
    InvalidUsername(UsernameRejectionReason),
    Other,
}

/// Reading a login failure is not implemented: no input can be decoded.
impl BinaryDecode for LoginFailure {
    open spec fn decodable(data: Seq<u8>) -> bool {
        false
    }

    fn decode(data: &[u8]) -> Self {
        vstd::pervasive::unreached()
    }
}

/// Why the server refused a username.
#[derive(Debug)]
pub enum UsernameRejectionReason {
    Empty,
    TooLong,
    InvalidCharacters,
    LeadingOrTrailingSpaces,
}

/// A request/response exchange of the server protocol: the code that
/// introduces it and the types of its request and of its two answers.
pub trait ProtocolMessage: Sized {
    const CODE: u32;

    type Request: BinaryEncode;

    type Success: BinaryDecode;

    type Failure: BinaryDecode;

    /// The message code, then the encoded request.
    fn encode_request(req: &Self::Request) -> (bytes: Vec<u8>)
        ensures
            bytes@ == u32_wire(Self::CODE) + req.encoding(),
    ;

    fn decode_success(data: &[u8]) -> Self::Success
        requires
            <Self::Success as BinaryDecode>::decodable(data@),
    ;

    fn decode_failure(data: &[u8]) -> Self::Failure
        requires
            <Self::Failure as BinaryDecode>::decodable(data@),
    ;
}

/// The login exchange (server code 1).
pub struct Login;

impl ProtocolMessage for Login {
    const CODE: u32 = 1;

    type Request = LoginRequest;

    type Success = LoginSuccess;

    type Failure = LoginFailure;

    /// The message code followed by the encoded request.
    fn encode_request(req: &LoginRequest) -> (bytes: Vec<u8>)
        ensures
            bytes@ == u32_wire(1) + req.wire(),
            // The code 1 in four little-endian bytes, then the request as it
            // encodes alone.
            bytes@.take(4) == seq![1u8, 0, 0, 0],
            bytes@.skip(4) == req.encoding(),
    {
        let mut buf = Self::CODE.encode();
        let mut body = req.encode();
        buf.append(&mut body);
        buf
    }

    fn decode_success(data: &[u8]) -> LoginSuccess {
        LoginSuccess::decode(data)
    }

    fn decode_failure(data: &[u8]) -> LoginFailure {
        LoginFailure::decode(data)
    }
}

/// A request as it is sent: the length of the encoded request as a 32-bit
/// little-endian field, followed by the encoded request.
pub open spec fn frame_wire(body: Seq<u8>) -> Seq<u8> {
    u32_wire(wire_length(body.len())) + body
}

/// A request of a message as it is sent: the frame around the message code
/// and the encoded request.
pub fn frame_request<M: ProtocolMessage>(req: &M::Request) -> (framed: Vec<u8>)
    ensures
        framed@ == frame_wire(u32_wire(M::CODE) + req.encoding()),
{
    let body = M::encode_request(req);
    frame(body.as_slice())
}

/// Frames an encoded request for sending: its length field, then its bytes.
pub fn frame(body: &[u8]) -> (framed: Vec<u8>)
    ensures
        framed@ == frame_wire(body@),
        // The body follows four bytes that give its length (modulo 2^32),
        // lowest byte first.
        framed@.len() == 4 + body@.len(),
        framed@.skip(4) == body@,
        framed@[0] + 0x100 * framed@[1] + 0x1_0000 * framed@[2] + 0x100_0000 * framed@[3]
            == body@.len() % 0x1_0000_0000,
{
    let mut buf = length_field(body.len()).encode();
    let ghost prefix = buf@;
    buf.extend_from_slice(body);
    assert(buf@ =~= prefix + body@);
    buf
}

/// The four bytes of a `u32` in wire format read back as that `u32`, so two
/// numbers with the same wire format are equal.
pub proof fn lemma_u32_wire_readback(x: u32, y: u32)
    ensures
        u32_wire(x).len() == 4,
        u32_wire(y).len() == 4,
        u32_of_wire(u32_wire(x)) == x,
        u32_wire(x) == u32_wire(y) ==> x == y,
{
    assert(u32_of_wire(u32_wire(x)) == x);
    assert(u32_of_wire(u32_wire(y)) == y);
}

/// A frame starts with the length of its body, which reads back from its
/// first four bytes whenever the body is shorter than 2^32 bytes, and the
/// body follows unchanged.
pub proof fn lemma_frame_readback(body: Seq<u8>)
    requires
        body.len() < 0x1_0000_0000,
    ensures
        frame_wire(body).len() == body.len() + 4,
        u32_of_wire(frame_wire(body).take(4)) == body.len(),
        frame_wire(body).skip(4) == body,
{
    lemma_u32_wire_readback(wire_length(body.len()), 0);
    let field = u32_wire(wire_length(body.len()));
    assert(frame_wire(body).take(4) =~= field);
    assert(frame_wire(body).skip(4) =~= body);
}

/// A string in wire format is self-delimiting and loses nothing: when two
/// strings shorter than 2^32 bytes, each followed by more bytes, give the same
/// byte sequence, the strings are equal and so are the bytes that follow.
pub proof fn lemma_string_wire_unique(a: Seq<char>, b: Seq<char>, rest_a: Seq<u8>, rest_b: Seq<u8>)
    requires
        encode_utf8(a).len() < 0x1_0000_0000,
        encode_utf8(b).len() < 0x1_0000_0000,
        string_wire(a) + rest_a == string_wire(b) + rest_b,
    ensures
        a == b,
        rest_a == rest_b,
{
    let ea = encode_utf8(a);
    let eb = encode_utf8(b);
    let wa = string_wire(a) + rest_a;
    let wb = string_wire(b) + rest_b;
    lemma_u32_wire_readback(wire_length(ea.len()), wire_length(eb.len()));
    lemma_u32_wire_readback(wire_length(eb.len()), wire_length(ea.len()));
    assert(wa.take(4) =~= u32_wire(wire_length(ea.len())));
    assert(wb.take(4) =~= u32_wire(wire_length(eb.len())));
    assert(ea.len() == eb.len());
    assert(wa.subrange(4, 4 + ea.len() as int) =~= ea);
    assert(wb.subrange(4, 4 + eb.len() as int) =~= eb);
    vstd::utf8::encode_utf8_decode_utf8(a);
    vstd::utf8::encode_utf8_decode_utf8(b);
    assert(wa.skip(4 + ea.len() as int) =~= rest_a);
    assert(wb.skip(4 + eb.len() as int) =~= rest_b);
}

impl LoginRequest {
    /// Every text field of the request is shorter than 2^32 bytes, so that
    /// its length field holds its length.
    pub open spec fn lengths_fit(&self) -> bool {
        &&& encode_utf8(self.username@).len() < 0x1_0000_0000
        &&& encode_utf8(self.password@).len() < 0x1_0000_0000
        &&& encode_utf8(self.hash@).len() < 0x1_0000_0000
    }
}

/// Two byte sequences that begin with parts of the same length, and are
/// equal, have equal parts and equal rests.
proof fn lemma_split_equal(a: Seq<u8>, b: Seq<u8>, rest_a: Seq<u8>, rest_b: Seq<u8>)
    requires
        a.len() == b.len(),
        a + rest_a == b + rest_b,
    ensures
        a == b,
        rest_a == rest_b,
{
    assert((a + rest_a).take(a.len() as int) =~= a);
    assert((b + rest_b).take(b.len() as int) =~= b);
    assert((a + rest_a).skip(a.len() as int) =~= rest_a);
    assert((b + rest_b).skip(b.len() as int) =~= rest_b);
}

/// A `u32` in wire format followed by more bytes determines both.
proof fn lemma_u32_wire_unique(x: u32, y: u32, rest_x: Seq<u8>, rest_y: Seq<u8>)
    requires
        u32_wire(x) + rest_x == u32_wire(y) + rest_y,
    ensures
        x == y,
        rest_x == rest_y,
{
    lemma_u32_wire_readback(x, y);
    lemma_split_equal(u32_wire(x), u32_wire(y), rest_x, rest_y);
}

/// The encoding of a login request loses nothing: two requests whose text
/// fields are shorter than 2^32 bytes and that encode to the same bytes have
/// the same fields.
pub proof fn lemma_login_request_wire_unique(r1: LoginRequest, r2: LoginRequest)
    requires
        r1.lengths_fit(),
        r2.lengths_fit(),
        r1.wire() == r2.wire(),
    ensures
        r1.username@ == r2.username@,
        r1.password@ == r2.password@,
        r1.version_number == r2.version_number,
        r1.hash@ == r2.hash@,
        r1.minor_version == r2.minor_version,
{
    let m1 = u32_wire(r1.minor_version);
    let m2 = u32_wire(r2.minor_version);
    let h1 = string_wire(r1.hash@) + m1;
    let h2 = string_wire(r2.hash@) + m2;
    let v1 = u32_wire(r1.version_number) + h1;
    let v2 = u32_wire(r2.version_number) + h2;
    let t1 = string_wire(r1.password@) + v1;
    let t2 = string_wire(r2.password@) + v2;
    assert(r1.wire() =~= string_wire(r1.username@) + t1);
    assert(r2.wire() =~= string_wire(r2.username@) + t2);
    lemma_string_wire_unique(r1.username@, r2.username@, t1, t2);
    lemma_string_wire_unique(r1.password@, r2.password@, v1, v2);
    lemma_u32_wire_unique(r1.version_number, r2.version_number, h1, h2);
    lemma_string_wire_unique(r1.hash@, r2.hash@, m1, m2);
    assert(m1 + Seq::<u8>::empty() =~= m1);
    assert(m2 + Seq::<u8>::empty() =~= m2);
    lemma_u32_wire_unique(r1.minor_version, r2.minor_version, Seq::empty(), Seq::empty());
}

} // verus!
