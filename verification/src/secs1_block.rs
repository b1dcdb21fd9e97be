//! SECS-I blocks: the ten-byte block header, the block with its data, the
//! checksum, and the handshake codes of the block transfer protocol.
use vstd::prelude::*;

use crate::bytes::{be16, be32, u16_be, u16_from_be, u16_to_be, u32_be, u32_from_be, u32_to_be};
use crate::common::{ConnectionRole, DeviceId, FunctionId, Rbit, StreamId, SystemByte, Wbit};
use crate::error::SecsTransportError;

verus! {

/// The header of one SECS-I block.
#[derive(Debug, Clone, Copy, PartialEq, Eq, Structural)]
pub struct Secs1BlockHeader {
    /// Device the block is addressed to or comes from.
    pub device_id: DeviceId,
    /// Set on blocks from equipment to host.
    pub rbit: Rbit,
    /// Set when the primary message expects a reply.
    pub wbit: Wbit,
    pub stream: StreamId,
    pub function: FunctionId,
    /// Set on the last block of a message.
    pub ebit: bool,
    /// Block number: 0 for a single block, else counting from 1.
    pub block_no: u16,
    /// Identifies the transaction the block belongs to.
    pub system_byte: SystemByte,
}

/// A flag in the top bit of a byte.
pub open spec fn msb(flag: bool) -> int {
    if flag {
        128
    } else {
        0
    }
}

/// The ten bytes of a block header on the wire.
pub open spec fn block_header_bytes(h: Secs1BlockHeader) -> Seq<u8> {
    seq![
        (msb(h.rbit.0) + (h.device_id.0 / 256) % 128) as u8,
        (h.device_id.0 % 256) as u8,
        (msb(h.wbit.0) + h.stream.0 % 128) as u8,
        h.function.0,
        (msb(h.ebit) + (h.block_no / 256) % 128) as u8,
        (h.block_no % 256) as u8,
    ] + u32_be(h.system_byte.0)
}

/// The header that ten bytes on the wire stand for.
pub open spec fn block_header_of(b: Seq<u8>) -> Secs1BlockHeader
    recommends
        b.len() == 10,
{
    Secs1BlockHeader {
        rbit: Rbit(b[0] >= 128),
        device_id: DeviceId(be16((b[0] % 128) as u8, b[1]) as u16),
        wbit: Wbit(b[2] >= 128),
        stream: StreamId(b[2] % 128),
        function: FunctionId(b[3]),
        ebit: b[4] >= 128,
        block_no: be16((b[4] % 128) as u8, b[5]) as u16,
        system_byte: SystemByte(be32(b[6], b[7], b[8], b[9]) as u32),
    }
}

/// The header fields fit in the bits that the wire gives them.
pub open spec fn block_header_fits(h: Secs1BlockHeader) -> bool {
    &&& h.device_id.0 < 0x8000
    &&& h.stream.0 < 0x80
    &&& h.block_no < 0x8000
}

impl Secs1BlockHeader {
    pub fn to_bytes(&self) -> (r: [u8; 10])
        ensures
            r@ == block_header_bytes(*self),
    {
        let (d_hi, d_lo) = u16_to_be(self.device_id.0);
        let (b_hi, b_lo) = u16_to_be(self.block_no);
        let (s0, s1, s2, s3) = u32_to_be(self.system_byte.0);
        let r0: u8 = if self.rbit.0 {
            128 + d_hi % 128
        } else {
            d_hi % 128
        };
        let r2: u8 = if self.wbit.0 {
            128 + self.stream.0 % 128
        } else {
            self.stream.0 % 128
        };
        let r4: u8 = if self.ebit {
            128 + b_hi % 128
        } else {
            b_hi % 128
        };
        let r = [r0, d_lo, r2, self.function.0, r4, b_lo, s0, s1, s2, s3];
        assert(r@ =~= block_header_bytes(*self));
        r
    }

    /// Reads a header from its ten bytes; every byte pattern is a header.
    pub fn try_from(h: [u8; 10]) -> (r: Result<Secs1BlockHeader, SecsTransportError>)
        ensures
            r == Ok::<Secs1BlockHeader, SecsTransportError>(block_header_of(h@)),
    {
        Ok(
            Secs1BlockHeader {
                rbit: Rbit(h[0] >= 128),
                device_id: DeviceId(u16_from_be(h[0] % 128, h[1])),
                wbit: Wbit(h[2] >= 128),
                stream: StreamId(h[2] % 128),
                function: FunctionId(h[3]),
                ebit: h[4] >= 128,
                block_no: u16_from_be(h[4] % 128, h[5]),
                system_byte: SystemByte(u32_from_be(h[6], h[7], h[8], h[9])),
            },
        )
    }

    /// Whether this is the last block of its message.
    pub fn is_end(&self) -> (r: bool)
        ensures
            r == self.ebit,
    {
        self.ebit
    }

    pub fn need_reply(&self) -> (r: bool)
        ensures
            r == self.wbit.0,
    {
        self.wbit.need_reply()
    }

    pub fn is_primary(&self) -> (r: bool)
        ensures
            r == crate::common::is_primary_function(self.function),
    {
        self.function.is_primary()
    }

    pub fn is_secondary(&self) -> (r: bool)
        ensures
            r == !crate::common::is_primary_function(self.function),
    {
        self.function.is_secondary()
    }

    /// Whether this block opens a message: block 1, or the single block 0.
    pub fn is_first_block(&self) -> (r: bool)
        ensures
            r == (self.block_no == 1 || (self.block_no == 0 && self.ebit)),
    {
        self.block_no == 1 || (self.block_no == 0 && self.ebit)
    }
}

/// Reading a header back from its bytes gives the header, when its fields fit
/// their bits on the wire.
pub proof fn lemma_block_header_round_trip(h: Secs1BlockHeader)
    requires
        block_header_fits(h),
    ensures
        block_header_bytes(h).len() == 10,
        block_header_of(block_header_bytes(h)) == h,
{
    let b = block_header_bytes(h);
    crate::bytes::lemma_be32_of_u32(h.system_byte.0);
    assert(b[6] == u32_be(h.system_byte.0)[0]);
    assert(b[7] == u32_be(h.system_byte.0)[1]);
    assert(b[8] == u32_be(h.system_byte.0)[2]);
    assert(b[9] == u32_be(h.system_byte.0)[3]);
}

/// Writing out the header read from ten bytes gives those bytes back.
pub proof fn lemma_block_bytes_round_trip(b: Seq<u8>)
    requires
        b.len() == 10,
    ensures
        block_header_fits(block_header_of(b)),
        block_header_bytes(block_header_of(b)) == b,
{
    let h = block_header_of(b);
    crate::bytes::lemma_u32_of_be32(b[6], b[7], b[8], b[9]);
    assert(block_header_bytes(h) =~= b);
}

/// Sum of the bytes of `s`.
pub open spec fn byte_sum(s: Seq<u8>) -> nat
    decreases s.len(),
{
    if s.len() == 0 {
        0
    } else {
        byte_sum(s.drop_last()) + s.last() as nat
    }
}

/// A SECS-I block: its header and data, without length byte and checksum.
#[derive(Debug, PartialEq, Eq)]
pub struct Secs1Block {
    pub header: Secs1BlockHeader,
    pub data: Vec<u8>,
}

/// Header and data bytes of a block, as the checksum covers them.
pub open spec fn block_bytes(b: Secs1Block) -> Seq<u8> {
    block_header_bytes(b.header) + b.data@
}

/// The checksum of a block: the sum of its header and data bytes, modulo 2^16.
pub open spec fn block_checksum(b: Secs1Block) -> u16 {
    (byte_sum(block_bytes(b)) % 0x1_0000) as u16
}

impl Secs1Block {
    pub fn checksum(&self) -> (r: u16)
        ensures
            r == block_checksum(*self),
    {
        let bytes = self.to_bytes();
        let mut acc: u16 = 0;
        let mut i: usize = 0;
        while i < bytes.len()
            invariant
                i <= bytes@.len(),
                bytes@ == block_bytes(*self),
                acc == byte_sum(bytes@.take(i as int)) % 0x1_0000,
            decreases bytes@.len() - i,
        {
            assert(bytes@.take(i as int + 1).drop_last() =~= bytes@.take(i as int));
            acc = acc.wrapping_add(bytes[i] as u16);
            i = i + 1;
        }
        assert(bytes@.take(i as int) =~= bytes@);
        acc
    }

    pub fn verify_checksum(&self, expected: u16) -> (r: bool)
        ensures
            r == (block_checksum(*self) == expected),
    {
        self.checksum() == expected
    }

    /// Header and data bytes.
    pub fn to_bytes(&self) -> (r: Vec<u8>)
        ensures
            r@ == block_bytes(*self),
    {
        let header = self.header.to_bytes();
        let mut buf: Vec<u8> = Vec::new();
        let mut i: usize = 0;
        while i < 10
            invariant
                i <= 10,
                header@ == block_header_bytes(self.header),
                buf@ == header@.take(i as int),
            decreases 10 - i,
        {
            buf.push(header[i]);
            assert(buf@ =~= header@.take(i as int + 1));
            i = i + 1;
        }
        let mut j: usize = 0;
        while j < self.data.len()
            invariant
                j <= self.data@.len(),
                header@ == block_header_bytes(self.header),
                buf@ == header@ + self.data@.take(j as int),
            decreases self.data@.len() - j,
        {
            buf.push(self.data[j]);
            assert(buf@ =~= header@ + self.data@.take(j as int + 1));
            j = j + 1;
        }
        assert(self.data@.take(j as int) =~= self.data@);
        buf
    }

    /// Header and data bytes followed by the checksum, most significant byte first.
    pub fn to_bytes_with_checksum(&self) -> (r: Vec<u8>)
        ensures
            r@ == block_bytes(*self) + u16_be(block_checksum(*self)),
    {
        let mut bytes = self.to_bytes();
        let checksum = self.checksum();
        let (hi, lo) = u16_to_be(checksum);
        bytes.push(hi);
        bytes.push(lo);
        assert(bytes@ =~= block_bytes(*self) + u16_be(block_checksum(*self)));
        bytes
    }

    /// Reads a block from its header and data bytes; a block holds 10 to 254 of them.
    pub fn try_from(value: &[u8]) -> (r: Result<Secs1Block, SecsTransportError>)
        ensures
            value@.len() < 10 || value@.len() > 254 ==> r == Err::<Secs1Block, SecsTransportError>(
                SecsTransportError::InvalidBlockLength(value@.len() as usize),
            ),
            10 <= value@.len() <= 254 ==> (r matches Ok(b) && b.header == block_header_of(
                value@.take(10),
            ) && b.data@ == value@.skip(10)),
    {
        if value.len() < 10 || value.len() > 254 {
            return Err(SecsTransportError::InvalidBlockLength(value.len()));
        }
        let raw = [
            value[0],
            value[1],
            value[2],
            value[3],
            value[4],
            value[5],
            value[6],
            value[7],
            value[8],
            value[9],
        ];
        assert(raw@ =~= value@.take(10));
        let header = match Secs1BlockHeader::try_from(raw) {
            Ok(h) => h,
            Err(e) => {
                return Err(e);
            },
        };
        let mut data: Vec<u8> = Vec::new();
        let mut i: usize = 10;
        while i < value.len()
            invariant
                10 <= i <= value@.len(),
                data@ == value@.subrange(10, i as int),
            decreases value@.len() - i,
        {
            data.push(value[i]);
            assert(data@ =~= value@.subrange(10, i as int + 1));
            i = i + 1;
        }
        assert(data@ =~= value@.skip(10));
        Ok(Secs1Block { header, data })
    }
}

/// Reading a block back from its bytes gives the block, when its header fields
/// fit their bits and its data holds at most 244 bytes.
pub proof fn lemma_block_round_trip(b: Secs1Block)
    requires
        block_header_fits(b.header),
        b.data@.len() <= 244,
    ensures
        10 <= block_bytes(b).len() <= 254,
        block_header_of(block_bytes(b).take(10)) == b.header,
        block_bytes(b).skip(10) == b.data@,
{
    lemma_block_header_round_trip(b.header);
    assert(block_bytes(b).take(10) =~= block_header_bytes(b.header));
    assert(block_bytes(b).skip(10) =~= b.data@);
}

/// The handshake codes of the SECS-I block transfer protocol.
#[derive(Debug, Clone, Copy, PartialEq, Eq, Structural)]
pub enum Secs1HandshakeCode {
    /// Request to send.
    ENQ,
    /// Ready to receive.
    EOT,
    /// Correct reception.
    ACK,
    /// Incorrect reception.
    NAK,
}

pub open spec fn handshake_byte(c: Secs1HandshakeCode) -> u8 {
    match c {
        Secs1HandshakeCode::ENQ => 0x05,
        Secs1HandshakeCode::EOT => 0x04,
        Secs1HandshakeCode::ACK => 0x06,
        Secs1HandshakeCode::NAK => 0x15,
    }
}

pub open spec fn handshake_of(b: u8) -> Option<Secs1HandshakeCode> {
    if b == 0x05 {
        Some(Secs1HandshakeCode::ENQ)
    } else if b == 0x04 {
        Some(Secs1HandshakeCode::EOT)
    } else if b == 0x06 {
        Some(Secs1HandshakeCode::ACK)
    } else if b == 0x15 {
        Some(Secs1HandshakeCode::NAK)
    } else {
        None
    }
}

impl Secs1HandshakeCode {
    pub fn to_byte(&self) -> (r: u8)
        ensures
            r == handshake_byte(*self),
    {
        match self {
            Secs1HandshakeCode::ENQ => 0x05,
            Secs1HandshakeCode::EOT => 0x04,
            Secs1HandshakeCode::ACK => 0x06,
            Secs1HandshakeCode::NAK => 0x15,
        }
    }

    pub fn from_byte(b: u8) -> (r: Option<Secs1HandshakeCode>)
        ensures
            r == handshake_of(b),
    {
        if b == 0x05 {
            Some(Secs1HandshakeCode::ENQ)
        } else if b == 0x04 {
            Some(Secs1HandshakeCode::EOT)
        } else if b == 0x06 {
            Some(Secs1HandshakeCode::ACK)
        } else if b == 0x15 {
            Some(Secs1HandshakeCode::NAK)
        } else {
            None
        }
    }
}

/// Every handshake code reads back from its byte.
pub proof fn lemma_handshake_round_trip(c: Secs1HandshakeCode)
    ensures
        handshake_of(handshake_byte(c)) == Some(c),
{
}

/// Settings of a SECS-I link; timeouts are in milliseconds.
#[derive(Debug, Clone, PartialEq, Eq)]
pub struct Secs1TransportConfig {
    pub device_id: DeviceId,
    pub local_role: ConnectionRole,
    /// Inter-character timeout.
    pub t1_timeout: u64,
    /// Protocol timeout.
    pub t2_timeout: u64,
    /// Reply timeout.
    pub t3_timeout: u64,
    /// Inter-block timeout.
    pub t4_timeout: u64,
    /// How often line control is retried before a send fails.
    pub t2_rty_limit: u8,
}

} // verus!
