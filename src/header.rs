//! The fixed 80-byte header of a connectionless (UDP) DCE/RPC PDU.
//!
//! Layout, in wire order: version (1), packet type (1), flags1 (1),
//! flags2 (1), drep (3), serial high byte (1), object UUID (16),
//! interface UUID (16), activity UUID (16), server boot time (4),
//! interface version (4), sequence number (4), operation number (2),
//! interface hint (2), activity hint (2), fragment length (2),
//! fragment number (2), auth protocol (1), serial low byte (1).
//! Multi-byte integers are in the byte order that bit 0x10 of the first
//! drep byte selects: set for little-endian, clear for big-endian.
use vstd::prelude::*;
use vstd::slice::slice_subrange;
use vstd::slice::slice_to_vec;

verus! {

/// Size of the fixed header, in bytes.
pub const DCERPC_UDP_HDR_LEN: usize = 80;

/// The only protocol version accepted for connectionless DCE/RPC.
pub const DCERPC_UDP_VERSION: u8 = 4;

/// Packet type of a request (client to server).
pub const DCERPC_TYPE_REQUEST: u8 = 0;

/// Packet type of a response (server to client).
pub const DCERPC_TYPE_RESPONSE: u8 = 2;

/// Bit of flags1 that marks the first fragment of a PDU.
pub const PFC_FIRST_FRAG: u8 = 0x01;

/// Bit of the first drep byte that selects little-endian integers.
pub const DREP_LITTLE_ENDIAN: u8 = 0x10;

/// A decoded connectionless DCE/RPC header.
pub struct DCERPCHdrUdp {
    pub rpc_vers: u8,
    pub pkt_type: u8,
    pub flags1: u8,
    pub flags2: u8,
    pub drep: Vec<u8>,
    pub serial_hi: u8,
    pub objectuuid: Vec<u8>,
    pub interfaceuuid: Vec<u8>,
    pub activityuuid: Vec<u8>,
    pub server_boot: u32,
    pub if_vers: u32,
    pub seqnum: u32,
    pub opnum: u16,
    pub ihint: u16,
    pub ahint: u16,
    pub fraglen: u16,
    pub fragnum: u16,
    pub auth_proto: u8,
    pub serial_lo: u8,
}

/// Why a header was refused.
#[derive(PartialEq, Eq, Structural, Debug, Clone, Copy)]
pub enum HeaderError {
    /// Fewer bytes than a full header.
    InsufficientData,
    /// The version field is not 4.
    ProtocolVersionMismatch,
}

impl DCERPCHdrUdp {
    /// The variable-width fields have the widths that the wire format gives them.
    pub open spec fn wf(&self) -> bool {
        &&& self.drep@.len() == 3
        &&& self.objectuuid@.len() == 16
        &&& self.interfaceuuid@.len() == 16
        &&& self.activityuuid@.len() == 16
    }
}

/// Whether a first drep byte selects little-endian integers.
pub open spec fn is_little_endian(drep0: u8) -> bool {
    drep0 & DREP_LITTLE_ENDIAN != 0
}

/// The 16-bit integer stored at `at` in the given byte order.
pub open spec fn u16_at(b: Seq<u8>, at: int, little: bool) -> int {
    if little {
        b[at] + 256 * b[at + 1]
    } else {
        256 * b[at] + b[at + 1]
    }
}

/// The 32-bit integer stored at `at` in the given byte order.
pub open spec fn u32_at(b: Seq<u8>, at: int, little: bool) -> int {
    if little {
        b[at] + 256 * b[at + 1] + 65536 * b[at + 2] + 16777216 * b[at + 3]
    } else {
        16777216 * b[at] + 65536 * b[at + 1] + 256 * b[at + 2] + b[at + 3]
    }
}

/// Byte order declared by a raw header.
pub open spec fn header_little_endian(b: Seq<u8>) -> bool {
    is_little_endian(b[4])
}

/// Fragment length declared by a raw header.
pub open spec fn fraglen_of(b: Seq<u8>) -> int {
    u16_at(b, 74, header_little_endian(b))
}

/// `h` holds exactly the fields of the raw header at the front of `b`.
pub open spec fn decodes_to(b: Seq<u8>, h: DCERPCHdrUdp) -> bool {
    let le = header_little_endian(b);
    &&& b.len() >= DCERPC_UDP_HDR_LEN
    &&& h.rpc_vers == b[0]
    &&& h.pkt_type == b[1]
    &&& h.flags1 == b[2]
    &&& h.flags2 == b[3]
    &&& h.drep@ == b.subrange(4, 7)
    &&& h.serial_hi == b[7]
    &&& h.objectuuid@ == b.subrange(8, 24)
    &&& h.interfaceuuid@ == b.subrange(24, 40)
    &&& h.activityuuid@ == b.subrange(40, 56)
    &&& h.server_boot == u32_at(b, 56, le)
    &&& h.if_vers == u32_at(b, 60, le)
    &&& h.seqnum == u32_at(b, 64, le)
    &&& h.opnum == u16_at(b, 68, le)
    &&& h.ihint == u16_at(b, 70, le)
    &&& h.ahint == u16_at(b, 72, le)
    &&& h.fraglen == fraglen_of(b)
    &&& h.fragnum == u16_at(b, 76, le)
    &&& h.auth_proto == b[78]
    &&& h.serial_lo == b[79]
}

/// The call identifier built from the two serial bytes: the byte order bit
/// decides which of them is the most significant.
pub open spec fn serial_no_of(drep0: u8, serial_hi: u8, serial_lo: u8) -> u16 {
    if drep0 & DREP_LITTLE_ENDIAN == 0 {
        (256 * serial_lo + serial_hi) as u16
    } else {
        (256 * serial_hi + serial_lo) as u16
    }
}

/// Call identifier declared by a raw header.
pub open spec fn serial_no_in(b: Seq<u8>) -> u16 {
    serial_no_of(b[4], b[7], b[79])
}

/// Swapping the two serial bytes together with the byte order bit leaves the
/// call identifier as it was.
pub proof fn lemma_serial_no_byte_order_swap(big: u8, little: u8, serial_hi: u8, serial_lo: u8)
    requires
        big & DREP_LITTLE_ENDIAN == 0,
        little & DREP_LITTLE_ENDIAN != 0,
    ensures
        serial_no_of(big, serial_hi, serial_lo) == serial_no_of(little, serial_lo, serial_hi),
{
}

/// `first` shifted into the high byte of a 16-bit value, `second` or-ed into the low one.
pub(crate) fn join_serial_bytes(first: u8, second: u8) -> (r: u16)
    ensures
        r == 256 * first + second,
{
    let high: u16 = (first as u16) << 8u16;
    let r: u16 = high | second as u16;
    assert(((first as u16) << 8u16) | (second as u16) == 256 * (first as u16) + (second as u16))
        by (bit_vector);
    r
}

fn read_u16(b: &[u8], at: usize, little: bool) -> (r: u16)
    requires
        at + 2 <= b@.len(),
    ensures
        r == u16_at(b@, at as int, little),
{
    let b0: u16 = b[at] as u16;
    let b1: u16 = b[at + 1] as u16;
    if little {
        b0 + b1 * 256
    } else {
        b0 * 256 + b1
    }
}

fn read_u32(b: &[u8], at: usize, little: bool) -> (r: u32)
    requires
        at + 4 <= b@.len(),
    ensures
        r == u32_at(b@, at as int, little),
{
    let b0: u32 = b[at] as u32;
    let b1: u32 = b[at + 1] as u32;
    let b2: u32 = b[at + 2] as u32;
    let b3: u32 = b[at + 3] as u32;
    if little {
        b0 + b1 * 256 + b2 * 65536 + b3 * 16777216
    } else {
        b0 * 16777216 + b1 * 65536 + b2 * 256 + b3
    }
}

fn copy_bytes(b: &[u8], from: usize, to: usize) -> (r: Vec<u8>)
    requires
        from <= to <= b@.len(),
    ensures
        r@ == b@.subrange(from as int, to as int),
{
    slice_to_vec(slice_subrange(b, from, to))
}

/// Decodes the fixed header at the front of `i` and accepts it only with
/// protocol version 4.
pub fn validate_dcerpc_udp_header(i: &[u8]) -> (r: Result<(DCERPCHdrUdp, usize), HeaderError>)
    ensures
        i@.len() < DCERPC_UDP_HDR_LEN ==> r == Err::<(DCERPCHdrUdp, usize), HeaderError>(
            HeaderError::InsufficientData,
        ),
        i@.len() >= DCERPC_UDP_HDR_LEN && i@[0] != DCERPC_UDP_VERSION ==> r == Err::<
            (DCERPCHdrUdp, usize),
            HeaderError,
        >(HeaderError::ProtocolVersionMismatch),
        i@.len() >= DCERPC_UDP_HDR_LEN && i@[0] == DCERPC_UDP_VERSION ==> (r matches Ok((h, n))
            && n == DCERPC_UDP_HDR_LEN && h.wf() && decodes_to(i@, h)),
{
    match parse_dcerpc_udp_header(i) {
        Ok((h, n)) => {
            if h.rpc_vers != DCERPC_UDP_VERSION {
                Err(HeaderError::ProtocolVersionMismatch)
            } else {
                Ok((h, n))
            }
        },
        Err(e) => Err(e),
    }
}

/// Decodes the fixed header at the front of `i`, returning it with the number
/// of bytes it takes. Only the length is checked here, not the field values.
pub fn parse_dcerpc_udp_header(i: &[u8]) -> (r: Result<(DCERPCHdrUdp, usize), HeaderError>)
    ensures
        i@.len() < DCERPC_UDP_HDR_LEN ==> r == Err::<(DCERPCHdrUdp, usize), HeaderError>(
            HeaderError::InsufficientData,
        ),
        i@.len() >= DCERPC_UDP_HDR_LEN ==> (r matches Ok((h, n)) && n == DCERPC_UDP_HDR_LEN
            && h.wf() && decodes_to(i@, h)),
{
    if i.len() < DCERPC_UDP_HDR_LEN {
        return Err(HeaderError::InsufficientData);
    }
    let little = i[4] & DREP_LITTLE_ENDIAN != 0;
    let h = DCERPCHdrUdp {
        rpc_vers: i[0],
        pkt_type: i[1],
        flags1: i[2],
        flags2: i[3],
        drep: copy_bytes(i, 4, 7),
        serial_hi: i[7],
        objectuuid: copy_bytes(i, 8, 24),
        interfaceuuid: copy_bytes(i, 24, 40),
        activityuuid: copy_bytes(i, 40, 56),
        server_boot: read_u32(i, 56, little),
        if_vers: read_u32(i, 60, little),
        seqnum: read_u32(i, 64, little),
        opnum: read_u16(i, 68, little),
        ihint: read_u16(i, 70, little),
        ahint: read_u16(i, 72, little),
        fraglen: read_u16(i, 74, little),
        fragnum: read_u16(i, 76, little),
        auth_proto: i[78],
        serial_lo: i[79],
    };
    Ok((h, DCERPC_UDP_HDR_LEN))
}

} // verus!
