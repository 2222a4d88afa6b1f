//! The uTP packet wire format.
//!
//! A packet is a 20-byte header followed by the payload.  All multi-byte
//! header fields are big-endian:
//!
//! | offset | size | field                                         |
//! |--------|------|-----------------------------------------------|
//! | 0      | 1    | packet type (high nibble), version (low nibble) |
//! | 1      | 1    | extension                                     |
//! | 2      | 2    | connection id                                 |
//! | 4      | 4    | timestamp (microseconds)                      |
//! | 8      | 4    | timestamp difference (microseconds)           |
//! | 12     | 4    | window size                                   |
//! | 16     | 2    | sequence number                               |
//! | 18     | 2    | acknowledgement number                        |
use vstd::prelude::*;
use bytes::Bytes;
use vstd::arithmetic::div_mod::lemma_fundamental_div_mod_converse;

verus! {

/// Length in bytes of an encoded packet header.
pub const PACKET_HEADER_LEN: usize = 20;

/// Largest payload the protocol puts into one packet.
pub const MAX_PAYLOAD_SIZE: usize = 1400;

// ------------------------------------------------------------------
// Payload bytes

/// `bytes::Bytes`, an immutable byte buffer, carried opaquely; what it holds
/// is `bytes_view`.
#[verifier::external_type_specification]
#[verifier::external_body]
pub struct ExBytes(bytes::Bytes);

/// The bytes held by a `bytes::Bytes` buffer.
pub uninterp spec fn bytes_view(b: Bytes) -> Seq<u8>;

/// `bytes::Bytes::new`: an empty buffer.
#[verifier::external_body]
pub(crate) fn bytes_new() -> (b: Bytes)
    ensures
        bytes_view(b) == Seq::<u8>::empty(),
{
    Bytes::new()
}

/// `bytes::Bytes::copy_from_slice`: a buffer holding a copy of `data`.
#[verifier::external_body]
pub(crate) fn bytes_copy_from_slice(data: &[u8]) -> (b: Bytes)
    ensures
        bytes_view(b) == data@,
{
    Bytes::copy_from_slice(data)
}

/// `<bytes::Bytes as From<Vec<u8>>>::from`: a buffer taking over the vector's bytes.
#[verifier::external_body]
pub(crate) fn bytes_from_vec(v: Vec<u8>) -> (b: Bytes)
    ensures
        bytes_view(b) == v@,
{
    Bytes::from(v)
}

/// `bytes::Bytes::is_empty`: whether no byte is held.
#[verifier::external_body]
pub(crate) fn bytes_is_empty(b: &Bytes) -> (r: bool)
    ensures
        r == (bytes_view(*b).len() == 0),
{
    b.is_empty()
}

/// `<bytes::Bytes as Clone>::clone`: another handle to the same bytes.
pub assume_specification[ <bytes::Bytes as Clone>::clone ](b: &Bytes) -> (r: Bytes)
    ensures
        bytes_view(r) == bytes_view(*b),
;

/// `<bytes::Bytes as AsRef<[u8]>>::as_ref`: the held bytes as a slice.
#[verifier::external_body]
pub(crate) fn bytes_as_slice(b: &Bytes) -> (s: &[u8])
    ensures
        s@ == bytes_view(*b),
{
    b.as_ref()
}

// ------------------------------------------------------------------
// Errors

/// The version nibble of a header names no known protocol version.
#[derive(Copy, Clone, Debug)]
pub struct InvalidVersion(pub u8);

impl From<u8> for InvalidVersion {
    fn from(value: u8) -> (r: Self) {
        InvalidVersion(value)
    }
}

impl vstd::std_specs::convert::FromSpecImpl<u8> for InvalidVersion {
    open spec fn obeys_from_spec() -> bool {
        true
    }

    open spec fn from_spec(v: u8) -> Self {
        InvalidVersion(v)
    }
}

/// The type nibble of a header names no known packet type.
#[derive(Copy, Clone, Debug)]
pub struct InvalidPacketType(pub u8);

impl From<u8> for InvalidPacketType {
    fn from(value: u8) -> (r: Self) {
        InvalidPacketType(value)
    }
}

impl vstd::std_specs::convert::FromSpecImpl<u8> for InvalidPacketType {
    open spec fn obeys_from_spec() -> bool {
        true
    }

    open spec fn from_spec(v: u8) -> Self {
        InvalidPacketType(v)
    }
}

/// Why a header could not be decoded.
#[derive(Clone, Debug)]
pub enum PacketHeaderError {
    InvalidPacketType(InvalidPacketType),
    InvalidVersion(InvalidVersion),
    /// Fewer than `PACKET_HEADER_LEN` bytes were available; holds how many were.
    InvalidLen(usize),
}

impl From<InvalidPacketType> for PacketHeaderError {
    fn from(value: InvalidPacketType) -> (r: Self) {
        PacketHeaderError::InvalidPacketType(value)
    }
}

impl vstd::std_specs::convert::FromSpecImpl<InvalidPacketType> for PacketHeaderError {
    open spec fn obeys_from_spec() -> bool {
        true
    }

    open spec fn from_spec(v: InvalidPacketType) -> Self {
        PacketHeaderError::InvalidPacketType(v)
    }
}

impl From<InvalidVersion> for PacketHeaderError {
    fn from(value: InvalidVersion) -> (r: Self) {
        PacketHeaderError::InvalidVersion(value)
    }
}

impl vstd::std_specs::convert::FromSpecImpl<InvalidVersion> for PacketHeaderError {
    open spec fn obeys_from_spec() -> bool {
        true
    }

    open spec fn from_spec(v: InvalidVersion) -> Self {
        PacketHeaderError::InvalidVersion(v)
    }
}

/// Why a packet could not be decoded.
#[derive(Clone, Debug)]
pub enum PacketError {
    InvalidHeader(PacketHeaderError),
}

impl From<PacketHeaderError> for PacketError {
    fn from(value: PacketHeaderError) -> (r: Self) {
        PacketError::InvalidHeader(value)
    }
}

impl vstd::std_specs::convert::FromSpecImpl<PacketHeaderError> for PacketError {
    open spec fn obeys_from_spec() -> bool {
        true
    }

    open spec fn from_spec(v: PacketHeaderError) -> Self {
        PacketError::InvalidHeader(v)
    }
}

// ------------------------------------------------------------------
// Header field types

/// The kind of a packet.
#[derive(Copy, Clone, Debug, PartialEq, Eq, Structural)]
pub enum PacketType {
    Data,
    Fin,
    State,
    Reset,
    Syn,
}

/// The 4-bit wire code of a packet type.
pub open spec fn packet_type_code(t: PacketType) -> u8 {
    match t {
        PacketType::Data => 0,
        PacketType::Fin => 1,
        PacketType::State => 2,
        PacketType::Reset => 3,
        PacketType::Syn => 4,
    }
}

/// The packet type that a wire code names, if any.
pub open spec fn packet_type_from_code(v: u8) -> Result<PacketType, InvalidPacketType> {
    if v == 0 {
        Ok(PacketType::Data)
    } else if v == 1 {
        Ok(PacketType::Fin)
    } else if v == 2 {
        Ok(PacketType::State)
    } else if v == 3 {
        Ok(PacketType::Reset)
    } else if v == 4 {
        Ok(PacketType::Syn)
    } else {
        Err(InvalidPacketType(v))
    }
}

/// The conventional name of a packet type, as printed in logs.
pub open spec fn packet_type_name(t: PacketType) -> Seq<char> {
    match t {
        PacketType::Data => "ST_DATA"@,
        PacketType::Fin => "ST_FIN"@,
        PacketType::State => "ST_STATE"@,
        PacketType::Reset => "ST_RESET"@,
        PacketType::Syn => "ST_SYN"@,
    }
}

impl PacketType {
    /// The conventional name of the packet type (`ST_DATA`, `ST_FIN`, ...).
    pub fn to_string(&self) -> (s: String)
        ensures
            s@ == packet_type_name(*self),
    {
        match self {
            PacketType::Data => "ST_DATA".to_owned(),
            PacketType::Fin => "ST_FIN".to_owned(),
            PacketType::State => "ST_STATE".to_owned(),
            PacketType::Reset => "ST_RESET".to_owned(),
            PacketType::Syn => "ST_SYN".to_owned(),
        }
    }
}

impl TryFrom<u8> for PacketType {
    type Error = InvalidPacketType;

    fn try_from(value: u8) -> (r: Result<Self, Self::Error>) {
        match value {
            0 => Ok(PacketType::Data),
            1 => Ok(PacketType::Fin),
            2 => Ok(PacketType::State),
            3 => Ok(PacketType::Reset),
            4 => Ok(PacketType::Syn),
            _ => Err(InvalidPacketType(value)),
        }
    }
}

impl vstd::std_specs::convert::TryFromSpecImpl<u8> for PacketType {
    open spec fn obeys_try_from_spec() -> bool {
        true
    }

    open spec fn try_from_spec(v: u8) -> Result<Self, InvalidPacketType> {
        packet_type_from_code(v)
    }
}

impl From<PacketType> for u8 {
    fn from(value: PacketType) -> (r: u8) {
        match value {
            PacketType::Data => 0,
            PacketType::Fin => 1,
            PacketType::State => 2,
            PacketType::Reset => 3,
            PacketType::Syn => 4,
        }
    }
}

impl vstd::std_specs::convert::FromSpecImpl<PacketType> for u8 {
    open spec fn obeys_from_spec() -> bool {
        true
    }

    open spec fn from_spec(v: PacketType) -> u8 {
        packet_type_code(v)
    }
}

/// The protocol version.
#[derive(Copy, Clone, Debug, PartialEq, Eq, Structural)]
pub enum Version {
    V1,
}

/// The 4-bit wire code of a version.
pub open spec fn version_code(v: Version) -> u8 {
    match v {
        Version::V1 => 1,
    }
}

/// The version that a wire code names, if any.
pub open spec fn version_from_code(v: u8) -> Result<Version, InvalidVersion> {
    if v == 1 {
        Ok(Version::V1)
    } else {
        Err(InvalidVersion(v))
    }
}

impl TryFrom<u8> for Version {
    type Error = InvalidVersion;

    fn try_from(value: u8) -> (r: Result<Self, Self::Error>) {
        match value {
            1 => Ok(Version::V1),
            _ => Err(InvalidVersion(value)),
        }
    }
}

impl vstd::std_specs::convert::TryFromSpecImpl<u8> for Version {
    open spec fn obeys_try_from_spec() -> bool {
        true
    }

    open spec fn try_from_spec(v: u8) -> Result<Self, InvalidVersion> {
        version_from_code(v)
    }
}

impl From<Version> for u8 {
    fn from(value: Version) -> (r: u8) {
        match value {
            Version::V1 => 1,
        }
    }
}

impl vstd::std_specs::convert::FromSpecImpl<Version> for u8 {
    open spec fn obeys_from_spec() -> bool {
        true
    }

    open spec fn from_spec(v: Version) -> u8 {
        version_code(v)
    }
}

/// The extension byte of a header.
#[derive(Copy, Clone, Debug, PartialEq, Eq, Structural)]
pub enum Extension {
    NoExtension,
    SelectiveAck,
    Unknown(u8),
}

/// The wire byte of an extension.
pub open spec fn extension_code(e: Extension) -> u8 {
    match e {
        Extension::NoExtension => 0,
        Extension::SelectiveAck => 1,
        Extension::Unknown(v) => v,
    }
}

/// The extension that a wire byte names.
pub open spec fn extension_from_code(v: u8) -> Extension {
    if v == 0 {
        Extension::NoExtension
    } else if v == 1 {
        Extension::SelectiveAck
    } else {
        Extension::Unknown(v)
    }
}

/// An extension in its canonical form: `Unknown` never holds a byte that has
/// a name of its own.
pub open spec fn extension_canonical(e: Extension) -> bool {
    match e {
        Extension::Unknown(v) => v >= 2,
        _ => true,
    }
}

impl From<u8> for Extension {
    fn from(value: u8) -> (r: Self) {
        match value {
            0 => Extension::NoExtension,
            1 => Extension::SelectiveAck,
            unknown => Extension::Unknown(unknown),
        }
    }
}

impl vstd::std_specs::convert::FromSpecImpl<u8> for Extension {
    open spec fn obeys_from_spec() -> bool {
        true
    }

    open spec fn from_spec(v: u8) -> Self {
        extension_from_code(v)
    }
}

impl From<Extension> for u8 {
    fn from(value: Extension) -> (r: u8) {
        match value {
            Extension::NoExtension => 0,
            Extension::SelectiveAck => 1,
            Extension::Unknown(ext) => ext,
        }
    }
}

impl vstd::std_specs::convert::FromSpecImpl<Extension> for u8 {
    open spec fn obeys_from_spec() -> bool {
        true
    }

    open spec fn from_spec(v: Extension) -> u8 {
        extension_code(v)
    }
}

// ------------------------------------------------------------------
// Big-endian integers

/// The two big-endian bytes of `x`.
pub open spec fn be16(x: u16) -> Seq<u8> {
    seq![(x / 0x100) as u8, (x % 0x100) as u8]
}

/// The four big-endian bytes of `x`.
pub open spec fn be32(x: u32) -> Seq<u8> {
    seq![
        (x / 0x100_0000) as u8,
        ((x / 0x1_0000) % 0x100) as u8,
        ((x / 0x100) % 0x100) as u8,
        (x % 0x100) as u8,
    ]
}

/// The big-endian `u16` stored in `b[i..i + 2]`.
pub open spec fn read_be16(b: Seq<u8>, i: int) -> u16 {
    (b[i] * 0x100 + b[i + 1]) as u16
}

/// The big-endian `u32` stored in `b[i..i + 4]`.
pub open spec fn read_be32(b: Seq<u8>, i: int) -> u32 {
    (b[i] * 0x100_0000 + b[i + 1] * 0x1_0000 + b[i + 2] * 0x100 + b[i + 3]) as u32
}

fn push_be16(buf: &mut Vec<u8>, x: u16)
    ensures
        final(buf)@ == old(buf)@ + be16(x),
{
    buf.push((x / 0x100) as u8);
    buf.push((x % 0x100) as u8);
    assert(buf@ =~= old(buf)@ + be16(x));
}

fn push_be32(buf: &mut Vec<u8>, x: u32)
    ensures
        final(buf)@ == old(buf)@ + be32(x),
{
    buf.push((x / 0x100_0000) as u8);
    buf.push(((x / 0x1_0000) % 0x100) as u8);
    buf.push(((x / 0x100) % 0x100) as u8);
    buf.push((x % 0x100) as u8);
    assert(buf@ =~= old(buf)@ + be32(x));
}

fn get_be16(b: &[u8], i: usize) -> (r: u16)
    requires
        i + 2 <= b@.len(),
    ensures
        r == read_be16(b@, i as int),
{
    (b[i] as u16) * 0x100 + (b[i + 1] as u16)
}

fn get_be32(b: &[u8], i: usize) -> (r: u32)
    requires
        i + 4 <= b@.len(),
    ensures
        r == read_be32(b@, i as int),
{
    (b[i] as u32) * 0x100_0000 + (b[i + 1] as u32) * 0x1_0000 + (b[i + 2] as u32) * 0x100
        + (b[i + 3] as u32)
}

proof fn lemma_be16_roundtrip(x: u16, pre: Seq<u8>, post: Seq<u8>)
    ensures
        read_be16(pre + be16(x) + post, pre.len() as int) == x,
        (pre + be16(x) + post).subrange(pre.len() as int, pre.len() + 2int) == be16(x),
{
    let b = pre + be16(x) + post;
    let i = pre.len() as int;
    assert(b[i] == (x / 0x100) as u8);
    assert(b[i + 1] == (x % 0x100) as u8);
    assert(b.subrange(i, i + 2) =~= be16(x));
}

proof fn lemma_be32_roundtrip(x: u32, pre: Seq<u8>, post: Seq<u8>)
    ensures
        read_be32(pre + be32(x) + post, pre.len() as int) == x,
        (pre + be32(x) + post).subrange(pre.len() as int, pre.len() + 4int) == be32(x),
{
    let b = pre + be32(x) + post;
    let i = pre.len() as int;
    assert(b[i] == (x / 0x100_0000) as u8);
    assert(b[i + 1] == ((x / 0x1_0000) % 0x100) as u8);
    assert(b[i + 2] == ((x / 0x100) % 0x100) as u8);
    assert(b[i + 3] == (x % 0x100) as u8);
    assert(b.subrange(i, i + 4) =~= be32(x));
}

proof fn lemma_read_be16_reencode(b: Seq<u8>, i: int)
    requires
        0 <= i,
        i + 2 <= b.len(),
    ensures
        be16(read_be16(b, i)) == b.subrange(i, i + 2),
{
    assert(be16(read_be16(b, i)) =~= b.subrange(i, i + 2));
}

proof fn lemma_read_be32_reencode(b: Seq<u8>, i: int)
    requires
        0 <= i,
        i + 4 <= b.len(),
    ensures
        be32(read_be32(b, i)) == b.subrange(i, i + 4),
{
    let (b0, b1, b2, b3) = (b[i] as int, b[i + 1] as int, b[i + 2] as int, b[i + 3] as int);
    let x = b0 * 0x100_0000 + b1 * 0x1_0000 + b2 * 0x100 + b3;
    assert(read_be32(b, i) == x);
    lemma_fundamental_div_mod_converse(x, 0x100_0000, b0, b1 * 0x1_0000 + b2 * 0x100 + b3);
    lemma_fundamental_div_mod_converse(x, 0x1_0000, b0 * 0x100 + b1, b2 * 0x100 + b3);
    lemma_fundamental_div_mod_converse(b0 * 0x100 + b1, 0x100, b0, b1);
    lemma_fundamental_div_mod_converse(x, 0x100, b0 * 0x1_0000 + b1 * 0x100 + b2, b3);
    lemma_fundamental_div_mod_converse(b0 * 0x1_0000 + b1 * 0x100 + b2, 0x100, b0 * 0x100 + b1, b2);
    assert(be32(read_be32(b, i)) =~= b.subrange(i, i + 4));
}

// ------------------------------------------------------------------
// Header

/// A decoded packet header.
#[derive(Clone, Debug, PartialEq, Eq)]
pub struct PacketHeader {
    pub packet_type: PacketType,
    pub version: Version,
    pub extension: Extension,
    pub conn_id: u16,
    pub timestamp: u32,
    pub timestamp_diff: u32,
    pub wnd_size: u32,
    pub seq_nr: u16,
    pub ack_nr: u16,
}

/// The first header byte: packet type in the high nibble, version in the low one.
pub open spec fn type_ver_byte(t: PacketType, v: Version) -> u8 {
    (packet_type_code(t) * 0x10 + version_code(v)) as u8
}

/// The 20 bytes that encode a header.
pub open spec fn header_bytes(h: PacketHeader) -> Seq<u8> {
    seq![type_ver_byte(h.packet_type, h.version), extension_code(h.extension)]
        + be16(h.conn_id)
        + be32(h.timestamp)
        + be32(h.timestamp_diff)
        + be32(h.wnd_size)
        + be16(h.seq_nr)
        + be16(h.ack_nr)
}

/// The header fields stored in the first 20 bytes of `b`, once its first byte
/// has been found to name a packet type and a version.
pub open spec fn header_fields(b: Seq<u8>, t: PacketType, v: Version) -> PacketHeader {
    PacketHeader {
        packet_type: t,
        version: v,
        extension: extension_from_code(b[1]),
        conn_id: read_be16(b, 2),
        timestamp: read_be32(b, 4),
        timestamp_diff: read_be32(b, 8),
        wnd_size: read_be32(b, 12),
        seq_nr: read_be16(b, 16),
        ack_nr: read_be16(b, 18),
    }
}

/// What decoding a header from the front of `b` gives: the length is checked
/// first, then the packet type, then the version.
pub open spec fn decode_header_spec(b: Seq<u8>) -> Result<PacketHeader, PacketHeaderError> {
    if b.len() < PACKET_HEADER_LEN {
        Err(PacketHeaderError::InvalidLen(b.len() as usize))
    } else {
        match packet_type_from_code(b[0] / 0x10) {
            Err(e) => Err(PacketHeaderError::InvalidPacketType(e)),
            Ok(t) => match version_from_code(b[0] % 0x10) {
                Err(e) => Err(PacketHeaderError::InvalidVersion(e)),
                Ok(v) => Ok(header_fields(b, t, v)),
            },
        }
    }
}

impl PacketHeader {
    /// Decodes a header from the first `PACKET_HEADER_LEN` bytes of `buf`;
    /// bytes after them are not looked at.
    pub fn decode(buf: &[u8]) -> (r: Result<Self, PacketHeaderError>)
        ensures
            r == decode_header_spec(buf@),
    {
        let len = buf.len();
        if len < PACKET_HEADER_LEN {
            return Err(PacketHeaderError::InvalidLen(len));
        }
        let type_ver = buf[0];
        assert(type_ver >> 4 == type_ver / 0x10) by (bit_vector);
        assert(type_ver & 0x0F == type_ver % 0x10) by (bit_vector);
        let packet_type = match PacketType::try_from(type_ver >> 4) {
            Ok(t) => t,
            Err(e) => return Err(PacketHeaderError::from(e)),
        };
        let version = match Version::try_from(type_ver & 0x0F) {
            Ok(v) => v,
            Err(e) => return Err(PacketHeaderError::from(e)),
        };
        let extension = Extension::from(buf[1]);
        let conn_id = get_be16(buf, 2);
        let timestamp = get_be32(buf, 4);
        let timestamp_diff = get_be32(buf, 8);
        let wnd_size = get_be32(buf, 12);
        let seq_nr = get_be16(buf, 16);
        let ack_nr = get_be16(buf, 18);
        Ok(PacketHeader {
            packet_type,
            version,
            extension,
            conn_id,
            timestamp,
            timestamp_diff,
            wnd_size,
            seq_nr,
            ack_nr,
        })
    }

    /// Appends the 20-byte encoding of the header to `buf`.
    pub fn encode_to(&self, buf: &mut Vec<u8>)
        ensures
            final(buf)@ == old(buf)@ + header_bytes(*self),
    {
        let t = u8::from(self.packet_type);
        let v = u8::from(self.version);
        assert(t <= 4 && v <= 15 ==> (t << 4) | v == t * 0x10 + v) by (bit_vector);
        let type_ver = (t << 4) | v;
        buf.push(type_ver);
        buf.push(u8::from(self.extension));
        push_be16(buf, self.conn_id);
        push_be32(buf, self.timestamp);
        push_be32(buf, self.timestamp_diff);
        push_be32(buf, self.wnd_size);
        push_be16(buf, self.seq_nr);
        push_be16(buf, self.ack_nr);
        assert(buf@ =~= old(buf)@ + header_bytes(*self));
    }
}

/// A header whose fields all survive a trip through the wire format.
pub open spec fn header_canonical(h: PacketHeader) -> bool {
    extension_canonical(h.extension)
}

/// An encoded header is always `PACKET_HEADER_LEN` bytes long.
pub proof fn lemma_header_bytes_len(h: PacketHeader)
    ensures
        header_bytes(h).len() == PACKET_HEADER_LEN,
{
}

/// Decoding the encoding of a header gives the header back, whatever bytes
/// follow it.
pub proof fn lemma_header_roundtrip(h: PacketHeader, rest: Seq<u8>)
    requires
        header_canonical(h),
    ensures
        decode_header_spec(header_bytes(h) + rest) == Ok::<PacketHeader, PacketHeaderError>(h),
{
    let b = header_bytes(h) + rest;
    let t = packet_type_code(h.packet_type);
    let v = version_code(h.version);
    assert(b[0] == type_ver_byte(h.packet_type, h.version));
    assert(b[0] / 0x10 == t);
    assert(b[0] % 0x10 == v);
    assert(b[1] == extension_code(h.extension));
    let p0 = seq![type_ver_byte(h.packet_type, h.version), extension_code(h.extension)];
    lemma_be16_roundtrip(h.conn_id, p0, b.skip(4));
    assert(p0 + be16(h.conn_id) + b.skip(4) =~= b);
    let p1 = p0 + be16(h.conn_id);
    lemma_be32_roundtrip(h.timestamp, p1, b.skip(8));
    assert(p1 + be32(h.timestamp) + b.skip(8) =~= b);
    let p2 = p1 + be32(h.timestamp);
    lemma_be32_roundtrip(h.timestamp_diff, p2, b.skip(12));
    assert(p2 + be32(h.timestamp_diff) + b.skip(12) =~= b);
    let p3 = p2 + be32(h.timestamp_diff);
    lemma_be32_roundtrip(h.wnd_size, p3, b.skip(16));
    assert(p3 + be32(h.wnd_size) + b.skip(16) =~= b);
    let p4 = p3 + be32(h.wnd_size);
    lemma_be16_roundtrip(h.seq_nr, p4, b.skip(18));
    assert(p4 + be16(h.seq_nr) + b.skip(18) =~= b);
    let p5 = p4 + be16(h.seq_nr);
    lemma_be16_roundtrip(h.ack_nr, p5, b.skip(20));
    assert(p5 + be16(h.ack_nr) + b.skip(20) =~= b);
    assert(header_fields(b, h.packet_type, h.version) == h);
}

/// Whatever a successful decode reads, encoding the header it gives writes
/// back exactly the bytes it was read from.
pub proof fn lemma_header_reencode(b: Seq<u8>)
    ensures
        decode_header_spec(b) is Ok ==> header_bytes(decode_header_spec(b)->Ok_0) == b.take(
            PACKET_HEADER_LEN as int,
        ),
{
    if decode_header_spec(b) is Ok {
        let h = decode_header_spec(b)->Ok_0;
        assert(type_ver_byte(h.packet_type, h.version) == b[0]);
        assert(extension_code(h.extension) == b[1]);
        lemma_read_be16_reencode(b, 2);
        lemma_read_be32_reencode(b, 4);
        lemma_read_be32_reencode(b, 8);
        lemma_read_be32_reencode(b, 12);
        lemma_read_be16_reencode(b, 16);
        lemma_read_be16_reencode(b, 18);
        assert(header_bytes(h) =~= b.take(PACKET_HEADER_LEN as int));
    }
}

// ------------------------------------------------------------------
// Packet

/// A header together with its payload.
#[derive(Clone, Debug, PartialEq, Eq)]
pub struct Packet {
    pub header: PacketHeader,
    pub payload: Bytes,
}

/// The bytes that encode a packet: its header, then its payload.
pub open spec fn packet_bytes(p: Packet) -> Seq<u8> {
    header_bytes(p.header) + bytes_view(p.payload)
}

/// What decoding a whole datagram gives: the header, and every byte after it
/// as the payload.
pub open spec fn decode_packet_spec(b: Seq<u8>) -> Result<(PacketHeader, Seq<u8>), PacketError> {
    match decode_header_spec(b) {
        Ok(h) => Ok((h, b.skip(PACKET_HEADER_LEN as int))),
        Err(e) => Err(PacketError::InvalidHeader(e)),
    }
}

/// `r` is what decoding `b` gives, with the payload taken by its bytes.
pub open spec fn packet_decoded_from(r: Result<Packet, PacketError>, b: Seq<u8>) -> bool {
    match r {
        Ok(p) => decode_packet_spec(b) == Ok::<(PacketHeader, Seq<u8>), PacketError>(
            (p.header, bytes_view(p.payload)),
        ),
        Err(e) => decode_packet_spec(b) == Err::<(PacketHeader, Seq<u8>), PacketError>(e),
    }
}

impl Packet {
    pub fn new(header: PacketHeader, payload: Bytes) -> (p: Self)
        ensures
            p.header == header,
            p.payload == payload,
    {
        Packet { header, payload }
    }

    pub fn packet_type(&self) -> (r: PacketType)
        ensures
            r == self.header.packet_type,
    {
        self.header.packet_type
    }

    pub fn version(&self) -> (r: Version)
        ensures
            r == self.header.version,
    {
        self.header.version
    }

    pub fn extension(&self) -> (r: Extension)
        ensures
            r == self.header.extension,
    {
        self.header.extension
    }

    pub fn conn_id(&self) -> (r: u16)
        ensures
            r == self.header.conn_id,
    {
        self.header.conn_id
    }

    pub fn timestamp(&self) -> (r: u32)
        ensures
            r == self.header.timestamp,
    {
        self.header.timestamp
    }

    pub fn timestamp_diff(&self) -> (r: u32)
        ensures
            r == self.header.timestamp_diff,
    {
        self.header.timestamp_diff
    }

    pub fn wnd_size(&self) -> (r: u32)
        ensures
            r == self.header.wnd_size,
    {
        self.header.wnd_size
    }

    pub fn seq_nr(&self) -> (r: u16)
        ensures
            r == self.header.seq_nr,
    {
        self.header.seq_nr
    }

    pub fn ack_nr(&self) -> (r: u16)
        ensures
            r == self.header.ack_nr,
    {
        self.header.ack_nr
    }

    /// Decodes a whole datagram: a header, then everything after it as the
    /// payload (extension headers are not parsed).
    pub fn decode(buf: &[u8]) -> (r: Result<Self, PacketError>)
        ensures
            packet_decoded_from(r, buf@),
    {
        let header = match PacketHeader::decode(buf) {
            Ok(h) => h,
            Err(e) => return Err(PacketError::from(e)),
        };
        let rest = vstd::slice::slice_subrange(buf, PACKET_HEADER_LEN, buf.len());
        let payload = bytes_copy_from_slice(rest);
        assert(rest@ =~= buf@.skip(PACKET_HEADER_LEN as int));
        Ok(Packet { header, payload })
    }

    /// Appends the encoding of the packet to `buf`.
    pub fn encode_to(&self, buf: &mut Vec<u8>)
        ensures
            final(buf)@ == old(buf)@ + packet_bytes(*self),
    {
        self.header.encode_to(buf);
        let ghost mid = buf@;
        if !bytes_is_empty(&self.payload) {
            let payload = bytes_as_slice(&self.payload);
            buf.extend_from_slice(payload);
            assert(buf@ =~= mid + payload@);
        } else {
            assert(mid =~= mid + bytes_view(self.payload));
        }
        assert(buf@ =~= old(buf)@ + packet_bytes(*self));
    }

    /// The encoding of the packet in a buffer of its own.
    pub fn encode(&self) -> (b: Bytes)
        ensures
            bytes_view(b) == packet_bytes(*self),
    {
        let mut buffer: Vec<u8> = Vec::with_capacity(PACKET_HEADER_LEN);
        self.encode_to(&mut buffer);
        assert(buffer@ =~= packet_bytes(*self));
        bytes_from_vec(buffer)
    }
}

/// Decoding the encoding of a packet gives back its header and its payload.
pub proof fn lemma_packet_roundtrip(h: PacketHeader, payload: Seq<u8>)
    requires
        header_canonical(h),
    ensures
        decode_packet_spec(header_bytes(h) + payload) == Ok::<(PacketHeader, Seq<u8>), PacketError>(
            (h, payload),
        ),
{
    lemma_header_roundtrip(h, payload);
    assert((header_bytes(h) + payload).skip(PACKET_HEADER_LEN as int) =~= payload);
}

/// Whatever a successful decode reads, encoding what it gives writes back the
/// very same bytes.
pub proof fn lemma_packet_reencode(b: Seq<u8>)
    ensures
        decode_packet_spec(b) is Ok ==> {
            let (h, payload) = decode_packet_spec(b)->Ok_0;
            header_bytes(h) + payload == b
        },
{
    lemma_header_reencode(b);
    if decode_packet_spec(b) is Ok {
        assert(b.take(PACKET_HEADER_LEN as int) + b.skip(PACKET_HEADER_LEN as int) =~= b);
    }
}

/// An encoded packet is `PACKET_HEADER_LEN` bytes longer than its payload.
pub proof fn lemma_packet_bytes_len(p: Packet)
    ensures
        packet_bytes(p).len() == PACKET_HEADER_LEN + bytes_view(p.payload).len(),
{
}

/// A header that decoded successfully is canonical, so it survives another
/// trip through the wire format.
pub proof fn lemma_decoded_header_canonical(b: Seq<u8>)
    ensures
        decode_header_spec(b) is Ok ==> header_canonical(decode_header_spec(b)->Ok_0),
{
}

/// Each packet type's wire code names that packet type.
pub proof fn lemma_packet_type_code_roundtrip(t: PacketType)
    ensures
        packet_type_from_code(packet_type_code(t)) == Ok::<PacketType, InvalidPacketType>(t),
{
}

/// A code that names a packet type is that type's wire code.
pub proof fn lemma_packet_type_from_code_inverse(v: u8)
    ensures
        packet_type_from_code(v) is Ok ==> packet_type_code(packet_type_from_code(v)->Ok_0) == v,
        packet_type_from_code(v) is Ok <==> v < 5,
{
}

/// Each version's wire code names that version, and no other code names one.
pub proof fn lemma_version_code_roundtrip(v: Version, c: u8)
    ensures
        version_from_code(version_code(v)) == Ok::<Version, InvalidVersion>(v),
        version_from_code(c) is Ok <==> c == 1,
{
}

/// Every extension byte survives decoding and re-encoding; a canonical
/// extension survives encoding and decoding.
pub proof fn lemma_extension_code_roundtrip(v: u8, e: Extension)
    ensures
        extension_code(extension_from_code(v)) == v,
        extension_canonical(e) ==> extension_from_code(extension_code(e)) == e,
        extension_canonical(extension_from_code(v)),
{
}

// ------------------------------------------------------------------
// Builder

/// Collects the fields of an outgoing packet.  Built packets are version 1
/// and carry no extension.
#[derive(Clone, Debug)]
pub struct PacketBuilder {
    packet_type: PacketType,
    conn_id: u16,
    timestamp: u32,
    timestamp_diff: u32,
    wnd_size: u32,
    seq_nr: u16,
    ack_nr: u16,
    payload: Option<Bytes>,
}

/// What a builder holds: the header of every packet it builds (always
/// version 1, no extension), and the payload if one was set.
pub struct PacketBuilderView {
    pub header: PacketHeader,
    pub payload: Option<Bytes>,
}

/// The builder `v` with its timestamp set to `timestamp`.
pub open spec fn with_timestamp(v: PacketBuilderView, timestamp: u32) -> PacketBuilderView {
    PacketBuilderView { header: PacketHeader { timestamp, ..v.header }, ..v }
}

/// The builder `v` with its timestamp_diff set to `timestamp_diff`.
pub open spec fn with_timestamp_diff(v: PacketBuilderView, timestamp_diff: u32) -> PacketBuilderView {
    PacketBuilderView { header: PacketHeader { timestamp_diff, ..v.header }, ..v }
}

/// The builder `v` with its wnd_size set to `wnd_size`.
pub open spec fn with_wnd_size(v: PacketBuilderView, wnd_size: u32) -> PacketBuilderView {
    PacketBuilderView { header: PacketHeader { wnd_size, ..v.header }, ..v }
}

/// The builder `v` with its seq_nr set to `seq_nr`.
pub open spec fn with_seq_nr(v: PacketBuilderView, seq_nr: u16) -> PacketBuilderView {
    PacketBuilderView { header: PacketHeader { seq_nr, ..v.header }, ..v }
}

/// The builder `v` with its ack_nr set to `ack_nr`.
pub open spec fn with_ack_nr(v: PacketBuilderView, ack_nr: u16) -> PacketBuilderView {
    PacketBuilderView { header: PacketHeader { ack_nr, ..v.header }, ..v }
}

/// The builder `v` with its payload set to `payload`.
pub open spec fn with_payload(v: PacketBuilderView, payload: Bytes) -> PacketBuilderView {
    PacketBuilderView { payload: Some(payload), ..v }
}

impl View for PacketBuilder {
    type V = PacketBuilderView;

    closed spec fn view(&self) -> PacketBuilderView {
        PacketBuilderView {
            header: PacketHeader {
                packet_type: self.packet_type,
                version: Version::V1,
                extension: Extension::NoExtension,
                conn_id: self.conn_id,
                timestamp: self.timestamp,
                timestamp_diff: self.timestamp_diff,
                wnd_size: self.wnd_size,
                seq_nr: self.seq_nr,
                ack_nr: self.ack_nr,
            },
            payload: self.payload,
        }
    }
}

impl PacketBuilder {
    /// A builder with no timestamp difference, acknowledgement number 0 and no payload.
    pub fn new(packet_type: PacketType, conn_id: u16, timestamp: u32, wnd_size: u32, seq_nr: u16) -> (b: Self)
        ensures
            b@ == (PacketBuilderView {
                header: PacketHeader {
                    packet_type,
                    version: Version::V1,
                    extension: Extension::NoExtension,
                    conn_id,
                    timestamp,
                    timestamp_diff: 0,
                    wnd_size,
                    seq_nr,
                    ack_nr: 0,
                },
                payload: None,
            }),
    {
        PacketBuilder {
            packet_type,
            conn_id,
            timestamp,
            timestamp_diff: 0,
            wnd_size,
            seq_nr,
            ack_nr: 0,
            payload: None,
        }
    }

    pub fn timestamp(self, timestamp: u32) -> (b: Self)
        ensures
            b@ == with_timestamp(self@, timestamp),
    {
        PacketBuilder { timestamp, ..self }
    }

    pub fn timestamp_diff(self, timestamp_diff: u32) -> (b: Self)
        ensures
            b@ == with_timestamp_diff(self@, timestamp_diff),
    {
        PacketBuilder { timestamp_diff, ..self }
    }

    pub fn wnd_size(self, wnd_size: u32) -> (b: Self)
        ensures
            b@ == with_wnd_size(self@, wnd_size),
    {
        PacketBuilder { wnd_size, ..self }
    }

    pub fn seq_nr(self, seq_nr: u16) -> (b: Self)
        ensures
            b@ == with_seq_nr(self@, seq_nr),
    {
        PacketBuilder { seq_nr, ..self }
    }

    pub fn ack_nr(self, ack_nr: u16) -> (b: Self)
        ensures
            b@ == with_ack_nr(self@, ack_nr),
    {
        PacketBuilder { ack_nr, ..self }
    }

    pub fn payload(self, payload: Bytes) -> (b: Self)
        ensures
            b@ == with_payload(self@, payload),
    {
        PacketBuilder { payload: Some(payload), ..self }
    }

    /// The packet: the builder's header, and the payload if one was set (else
    /// an empty one).
    pub fn build(self) -> (p: Packet)
        ensures
            p.header == self@.header,
            match self@.payload {
                Some(pl) => p.payload == pl,
                None => bytes_view(p.payload) == Seq::<u8>::empty(),
            },
    {
        let payload = match self.payload {
            Some(p) => p,
            None => bytes_new(),
        };
        Packet {
            header: PacketHeader {
                packet_type: self.packet_type,
                version: Version::V1,
                extension: Extension::NoExtension,
                conn_id: self.conn_id,
                timestamp: self.timestamp,
                timestamp_diff: self.timestamp_diff,
                wnd_size: self.wnd_size,
                seq_nr: self.seq_nr,
                ack_nr: self.ack_nr,
            },
            payload,
        }
    }
}

/// The builder's setters commute: setting two different fields gives the
/// same builder in either order, so setters applied in any order, each once,
/// build the same packet.
pub proof fn lemma_builder_setters_commute(
    v: PacketBuilderView,
    timestamp: u32,
    timestamp_diff: u32,
    wnd_size: u32,
    seq_nr: u16,
    ack_nr: u16,
    payload: Bytes,
)
    ensures
        with_timestamp_diff(with_timestamp(v, timestamp), timestamp_diff) == with_timestamp(with_timestamp_diff(v, timestamp_diff), timestamp),
        with_wnd_size(with_timestamp(v, timestamp), wnd_size) == with_timestamp(with_wnd_size(v, wnd_size), timestamp),
        with_seq_nr(with_timestamp(v, timestamp), seq_nr) == with_timestamp(with_seq_nr(v, seq_nr), timestamp),
        with_ack_nr(with_timestamp(v, timestamp), ack_nr) == with_timestamp(with_ack_nr(v, ack_nr), timestamp),
        with_payload(with_timestamp(v, timestamp), payload) == with_timestamp(with_payload(v, payload), timestamp),
        with_wnd_size(with_timestamp_diff(v, timestamp_diff), wnd_size) == with_timestamp_diff(with_wnd_size(v, wnd_size), timestamp_diff),
        with_seq_nr(with_timestamp_diff(v, timestamp_diff), seq_nr) == with_timestamp_diff(with_seq_nr(v, seq_nr), timestamp_diff),
        with_ack_nr(with_timestamp_diff(v, timestamp_diff), ack_nr) == with_timestamp_diff(with_ack_nr(v, ack_nr), timestamp_diff),
        with_payload(with_timestamp_diff(v, timestamp_diff), payload) == with_timestamp_diff(with_payload(v, payload), timestamp_diff),
        with_seq_nr(with_wnd_size(v, wnd_size), seq_nr) == with_wnd_size(with_seq_nr(v, seq_nr), wnd_size),
        with_ack_nr(with_wnd_size(v, wnd_size), ack_nr) == with_wnd_size(with_ack_nr(v, ack_nr), wnd_size),
        with_payload(with_wnd_size(v, wnd_size), payload) == with_wnd_size(with_payload(v, payload), wnd_size),
        with_ack_nr(with_seq_nr(v, seq_nr), ack_nr) == with_seq_nr(with_ack_nr(v, ack_nr), seq_nr),
        with_payload(with_seq_nr(v, seq_nr), payload) == with_seq_nr(with_payload(v, payload), seq_nr),
        with_payload(with_ack_nr(v, ack_nr), payload) == with_ack_nr(with_payload(v, payload), ack_nr),
{
}

/// A builder made by `new` and then given every field builds the packet with
/// exactly those fields, version 1 and no extension.
pub proof fn lemma_builder_all_fields(
    packet_type: PacketType,
    conn_id: u16,
    timestamp0: u32,
    wnd_size0: u32,
    seq_nr0: u16,
    v: PacketBuilderView,
    timestamp: u32,
    timestamp_diff: u32,
    wnd_size: u32,
    seq_nr: u16,
    ack_nr: u16,
    payload: Bytes,
)
    requires
        v == (PacketBuilderView {
            header: PacketHeader {
                packet_type,
                version: Version::V1,
                extension: Extension::NoExtension,
                conn_id,
                timestamp: timestamp0,
                timestamp_diff: 0,
                wnd_size: wnd_size0,
                seq_nr: seq_nr0,
                ack_nr: 0,
            },
            payload: None,
        }),
    ensures
        ({
            let b = with_payload(
                with_ack_nr(
                    with_seq_nr(with_wnd_size(with_timestamp_diff(with_timestamp(v, timestamp), timestamp_diff), wnd_size), seq_nr),
                    ack_nr,
                ),
                payload,
            );
            &&& b.header == (PacketHeader {
                packet_type,
                version: Version::V1,
                extension: Extension::NoExtension,
                conn_id,
                timestamp,
                timestamp_diff,
                wnd_size,
                seq_nr,
                ack_nr,
            })
            &&& b.payload == Some(payload)
        }),
{
}

/// Every built packet's header is canonical, so it decodes back unchanged.
pub proof fn lemma_built_header_canonical(b: PacketBuilder)
    ensures
        header_canonical(b@.header),
{
}

} // verus!
