//! Byte-level packet codec of the reader chipset protocol.
//!
//! A command is framed as a preamble, a little-endian 16-bit length of the
//! body, a checksum of the length field, the body (marker byte, command
//! code, payload) and a checksum of the body. Two fixed short sequences,
//! Ack and Err, stand outside that framing.

use vstd::prelude::*;

use crate::errors::FrameError;

verus! {

/// Sum of all bytes of a sequence, as an unbounded integer.
pub open spec fn byte_sum(s: Seq<u8>) -> int
    decreases s.len(),
{
    if s.len() == 0 {
        0
    } else {
        byte_sum(s.drop_last()) + s.last()
    }
}

/// The protocol checksum: the two's complement of the byte sum, reduced
/// modulo 256, so that a block followed by its checksum sums to zero.
pub open spec fn checksum_spec(s: Seq<u8>) -> u8 {
    (((0x100 - byte_sum(s) % 0x100) % 0x100) as u8)
}

proof fn lemma_byte_sum_take_step(s: Seq<u8>, i: int)
    requires
        0 <= i < s.len(),
    ensures
        byte_sum(s.take(i + 1)) == byte_sum(s.take(i)) + s[i],
{
    assert(s.take(i + 1).drop_last() =~= s.take(i));
    assert(s.take(i + 1).last() == s[i]);
}

/// Marker byte opening the body of a frame sent to the device.
pub const COMMAND_MARKER: u8 = 0xd6;

/// Marker byte opening the body of a frame received from the device.
pub const RESPONSE_MARKER: u8 = 0xd7;

/// The bytes of a data frame: preamble, little-endian 16-bit length of the
/// body, checksum of the length field, body (marker, command code, payload)
/// and checksum of the body.
pub open spec fn frame_spec(marker: u8, cmd_code: u8, payload: Seq<u8>) -> Seq<u8> {
    let len = payload.len() + 2;
    let len_l = (len % 0x100) as u8;
    let len_h = ((len / 0x100) % 0x100) as u8;
    let body = seq![marker, cmd_code] + payload;
    seq![0x00u8, 0x00u8, 0xffu8, 0xffu8, 0xffu8, len_l, len_h, checksum_spec(seq![len_l, len_h])]
        + body + seq![checksum_spec(body)]
}

/// The bytes a packet serializes to. An Ack or Err packet is one of the two
/// fixed constants; a Data packet is framed with the command marker.
pub open spec fn serialize_spec(p: PacketModel) -> Seq<u8> {
    match p {
        PacketModel::Ack => Packet::ack_spec(),
        PacketModel::Error => Packet::err_spec(),
        PacketModel::Data { cmd_code, payload } => frame_spec(COMMAND_MARKER, cmd_code, payload),
    }
}

/// What a received buffer decodes to. A buffer starting with the Ack
/// constant is an Ack whatever follows; the exact Err constant is an Err;
/// anything else must be a fully valid data frame, whose marker may be
/// either direction's so that decoding inverts encoding. Trailing bytes
/// after a valid frame are ignored.
pub open spec fn decode_spec(bytes: Seq<u8>) -> Result<PacketModel, FrameError> {
    if bytes.len() >= 6 && bytes.take(6) == Packet::ack_spec() {
        Ok(PacketModel::Ack)
    } else if bytes == Packet::err_spec() {
        Ok(PacketModel::Error)
    } else if bytes.len() < 9 || bytes.take(5) != Packet::err_spec() {
        Err(FrameError::MalformedPreamble)
    } else {
        let len = bytes[5] + 0x100 * bytes[6];
        if checksum_spec(seq![bytes[5] as u8, bytes[6] as u8]) != bytes[7] {
            Err(FrameError::ChecksumMismatch)
        } else if len < 2 || bytes.len() < 9 + len {
            Err(FrameError::MalformedPreamble)
        } else {
            let body = bytes.subrange(8, 8 + len);
            if body[0] != COMMAND_MARKER && body[0] != RESPONSE_MARKER {
                Err(FrameError::UnexpectedFrameType)
            } else if checksum_spec(body) != bytes[8 + len] {
                Err(FrameError::ChecksumMismatch)
            } else {
                Ok(PacketModel::Data { cmd_code: body[1] as u8, payload: body.skip(2) })
            }
        }
    }
}

/// Common facts about the shape of a data frame, shared by the decoding
/// laws below.
proof fn lemma_frame_shape(marker: u8, cmd_code: u8, payload: Seq<u8>)
    requires
        payload.len() <= 0xfffd,
    ensures
        ({
            let f = frame_spec(marker, cmd_code, payload);
            let n = payload.len() as int;
            &&& f.len() == 11 + n
            &&& f[0] == 0x00 && f[1] == 0x00 && f[2] == 0xff && f[3] == 0xff && f[4] == 0xff
            &&& f[5] + 0x100 * f[6] == n + 2
            &&& f[7] == checksum_spec(seq![f[5] as u8, f[6] as u8])
            &&& f.subrange(8, 10 + n) == seq![marker, cmd_code] + payload
            &&& f[8] == marker && f[9] == cmd_code
            &&& f[10 + n] == checksum_spec(seq![marker, cmd_code] + payload)
        }),
{
    let f = frame_spec(marker, cmd_code, payload);
    let n = payload.len() as int;
    let len = payload.len() + 2;
    let len_l = (len % 0x100) as u8;
    let len_h = ((len / 0x100) % 0x100) as u8;
    let body = seq![marker, cmd_code] + payload;
    assert(f.len() == 11 + n);
    assert(len_l + 0x100 * len_h == n + 2) by {
        vstd::arithmetic::div_mod::lemma_fundamental_div_mod(len as int, 0x100);
        assert(len / 0x100 < 0x100);
        assert((len / 0x100) % 0x100 == len / 0x100) by {
            vstd::arithmetic::div_mod::lemma_small_mod(len / 0x100, 0x100);
        }
    }
    assert(f[5] == len_l && f[6] == len_h && f[7] == checksum_spec(seq![len_l, len_h]));
    assert(seq![f[5] as u8, f[6] as u8] =~= seq![len_l, len_h]);
    assert(f.subrange(8, 10 + n) =~= body);
    assert(f[8] == body[0] && f[9] == body[1]);
    assert(f[10 + n] == checksum_spec(body));
}

/// Decoding inverts encoding: a frame built from a command code and a
/// payload, with either direction's marker, decodes back to exactly that
/// Data packet.
pub proof fn lemma_frame_roundtrip(marker: u8, cmd_code: u8, payload: Seq<u8>)
    requires
        marker == COMMAND_MARKER || marker == RESPONSE_MARKER,
        payload.len() <= 0xfffd,
    ensures
        decode_spec(frame_spec(marker, cmd_code, payload))
            == Ok::<PacketModel, FrameError>(PacketModel::Data { cmd_code, payload }),
{
    let f = frame_spec(marker, cmd_code, payload);
    let n = payload.len() as int;
    lemma_frame_shape(marker, cmd_code, payload);
    assert(f.take(6) != Packet::ack_spec()) by {
        if f.take(6) == Packet::ack_spec() {
            assert(f.take(6)[3] == Packet::ack_spec()[3]);
            assert(false);
        }
    }
    assert(f != Packet::err_spec()) by {
        assert(f.len() != Packet::err_spec().len());
    }
    assert(f.take(5) =~= Packet::err_spec());
    let len = f[5] + 0x100 * f[6];
    assert(len == n + 2);
    assert(checksum_spec(seq![f[5] as u8, f[6] as u8]) == f[7]);
    assert(!(len < 2 || f.len() < 9 + len));
    let body = f.subrange(8, 8 + len);
    assert(body == seq![marker, cmd_code] + payload);
    assert(body[0] == marker);
    assert(checksum_spec(body) == f[8 + len]);
    assert(body[1] == cmd_code);
    assert(body.skip(2) =~= payload);
}

/// Round trip of the packet codec: any command packet with a payload that
/// fits the length field decodes back to itself.
pub proof fn lemma_roundtrip(cmd_code: u8, payload: Seq<u8>)
    requires
        payload.len() <= 0xfffd,
    ensures
        decode_spec(serialize_spec(PacketModel::Data { cmd_code, payload }))
            == Ok::<PacketModel, FrameError>(PacketModel::Data { cmd_code, payload }),
{
    lemma_frame_roundtrip(COMMAND_MARKER, cmd_code, payload);
}

/// A buffer that starts with the Ack constant decodes to Ack, whatever
/// content follows it.
pub proof fn lemma_ack_prefix(bytes: Seq<u8>)
    requires
        bytes.len() >= 6,
        bytes.take(6) == Packet::ack_spec(),
    ensures
        decode_spec(bytes) == Ok::<PacketModel, FrameError>(PacketModel::Ack),
{
}

/// The exact Err constant decodes to Err. (A buffer that merely starts
/// with it is parsed as a frame instead, since the Err constant equals the
/// frame preamble.)
pub proof fn lemma_err_exact()
    ensures
        decode_spec(Packet::err_spec()) == Ok::<PacketModel, FrameError>(PacketModel::Error),
{
    let e = Packet::err_spec();
    assert(e.len() == 5);
    assert(!(e.len() >= 6 && e.take(6) == Packet::ack_spec()));
}

/// Flipping either checksum byte of an otherwise valid frame makes
/// decoding fail with a checksum error; it is never silently accepted.
pub proof fn lemma_checksum_flip(marker: u8, cmd_code: u8, payload: Seq<u8>, i: int, b: u8)
    requires
        marker == COMMAND_MARKER || marker == RESPONSE_MARKER,
        payload.len() <= 0xfffd,
        i == 7 || i == 10 + payload.len(),
        b != frame_spec(marker, cmd_code, payload)[i],
    ensures
        decode_spec(frame_spec(marker, cmd_code, payload).update(i, b))
            == Err::<PacketModel, FrameError>(FrameError::ChecksumMismatch),
{
    let f = frame_spec(marker, cmd_code, payload);
    let n = payload.len() as int;
    let g = f.update(i, b);
    lemma_frame_shape(marker, cmd_code, payload);
    assert(g.len() == 11 + n);
    assert(g.take(6) != Packet::ack_spec()) by {
        if g.take(6) == Packet::ack_spec() {
            assert(g.take(6)[3] == Packet::ack_spec()[3]);
            assert(false);
        }
    }
    assert(g != Packet::err_spec()) by {
        assert(g.len() != Packet::err_spec().len());
    }
    assert(g.take(5) =~= Packet::err_spec());
    if i == 7 {
        assert(g[7] == b && g[5] == f[5] && g[6] == f[6]);
        assert(checksum_spec(seq![g[5] as u8, g[6] as u8]) != g[7]) by {
            assert(seq![g[5] as u8, g[6] as u8] =~= seq![f[5] as u8, f[6] as u8]);
        }
    } else {
        assert(g[5] == f[5] && g[6] == f[6] && g[7] == f[7]);
        assert(checksum_spec(seq![g[5] as u8, g[6] as u8]) == g[7]) by {
            assert(seq![g[5] as u8, g[6] as u8] =~= seq![f[5] as u8, f[6] as u8]);
        }
        let len = g[5] + 0x100 * g[6];
        assert(len == n + 2);
        assert(!(len < 2 || g.len() < 9 + len));
        let body = g.subrange(8, 8 + len);
        assert(body =~= f.subrange(8, 10 + n));
        assert(body[0] == marker);
        assert(g[8 + len] == b);
        assert(checksum_spec(body) == f[10 + n]);
        assert(checksum_spec(body) != g[8 + len]);
    }
}

/// A validated wire frame: never constructed from unchecked bytes by the
/// rest of the library.
#[derive(Debug, Clone, PartialEq, Eq)]
pub enum Packet {
    Ack,
    Error,
    Data { cmd_code: u8, cmd_data: Vec<u8> },
}

/// Mathematical model of a frame, with the payload as a byte sequence.
pub enum PacketModel {
    Ack,
    Error,
    Data { cmd_code: u8, payload: Seq<u8> },
}

impl View for Packet {
    type V = PacketModel;

    open spec fn view(&self) -> PacketModel {
        match self {
            Packet::Ack => PacketModel::Ack,
            Packet::Error => PacketModel::Error,
            Packet::Data { cmd_code, cmd_data } => PacketModel::Data {
                cmd_code: *cmd_code,
                payload: cmd_data@,
            },
        }
    }
}

impl Packet {
    /// The fixed Ack sequence.
    pub open spec fn ack_spec() -> Seq<u8> {
        seq![0x00u8, 0x00u8, 0xffu8, 0x00u8, 0xffu8, 0x00u8]
    }

    /// The fixed Err sequence, equal to the preamble of a data frame.
    pub open spec fn err_spec() -> Seq<u8> {
        seq![0x00u8, 0x00u8, 0xffu8, 0xffu8, 0xffu8]
    }

    /// Builds a Data packet from a command code and its payload.
    pub fn data(code: u8, data: Vec<u8>) -> (r: Packet)
        ensures
            r@ == (PacketModel::Data { cmd_code: code, payload: data@ }),
    {
        Packet::Data { cmd_code: code, cmd_data: data }
    }

    /// The protocol checksum of a byte slice.
    pub fn checksum(data: &[u8]) -> (r: u8)
        ensures
            r == checksum_spec(data@),
    {
        let mut acc: u16 = 0;
        let mut i: usize = 0;
        while i < data.len()
            invariant
                i <= data@.len(),
                acc == byte_sum(data@.take(i as int)) % 0x100,
            decreases data@.len() - i,
        {
            proof {
                lemma_byte_sum_take_step(data@, i as int);
            }
            acc = (acc + data[i] as u16) % 0x100;
            i = i + 1;
        }
        proof {
            assert(data@.take(data@.len() as int) =~= data@);
        }
        (((0x100 - acc as u32) % 0x100) as u8)
    }

    /// The checksum of exactly two bytes, computed without an allocation.
    fn checksum_pair(a: u8, b: u8) -> (r: u8)
        ensures
            r == checksum_spec(seq![a, b]),
    {
        proof {
            let s2 = seq![a, b];
            let s1 = seq![a];
            let s0 = Seq::<u8>::empty();
            assert(s2.drop_last() =~= s1);
            assert(s1.drop_last() =~= s0);
            assert(byte_sum(s0) == 0);
            assert(byte_sum(s1) == byte_sum(s0) + a);
            assert(byte_sum(s2) == byte_sum(s1) + b);
        }
        let s: u32 = ((a as u32) + (b as u32)) % 0x100;
        (((0x100 - s) % 0x100) as u8)
    }

    /// Serializes this packet to its wire bytes.
    pub fn serialize(&self) -> (r: Vec<u8>)
        requires
            self@ matches PacketModel::Data { payload, .. } ==> payload.len() <= 0xfffd,
        ensures
            r@ == serialize_spec(self@),
    {
        match self {
            Packet::Ack => {
                let mut out: Vec<u8> = Vec::new();
                out.push(0x00);
                out.push(0x00);
                out.push(0xff);
                out.push(0x00);
                out.push(0xff);
                out.push(0x00);
                proof {
                    assert(out@ =~= Packet::ack_spec());
                }
                out
            }
            Packet::Error => {
                let mut out: Vec<u8> = Vec::new();
                out.push(0x00);
                out.push(0x00);
                out.push(0xff);
                out.push(0xff);
                out.push(0xff);
                proof {
                    assert(out@ =~= Packet::err_spec());
                }
                out
            }
            Packet::Data { cmd_code, cmd_data } => {
                let n = cmd_data.len();
                let len_l: u8 = ((n + 2) % 0x100) as u8;
                let len_h: u8 = (((n + 2) / 0x100) % 0x100) as u8;
                let mut out: Vec<u8> = Vec::new();
                out.push(0x00);
                out.push(0x00);
                out.push(0xff);
                out.push(0xff);
                out.push(0xff);
                out.push(len_l);
                out.push(len_h);
                out.push(Self::checksum_pair(len_l, len_h));
                out.push(COMMAND_MARKER);
                out.push(*cmd_code);
                let mut i: usize = 0;
                while i < n
                    invariant
                        n == cmd_data@.len(),
                        i <= n,
                        out@ == seq![
                            0x00u8, 0x00u8, 0xffu8, 0xffu8, 0xffu8, len_l, len_h,
                            checksum_spec(seq![len_l, len_h]), COMMAND_MARKER, *cmd_code,
                        ] + cmd_data@.take(i as int),
                    decreases n - i,
                {
                    out.push(cmd_data[i]);
                    proof {
                        assert(cmd_data@.take(i + 1) =~= cmd_data@.take(i as int).push(cmd_data@[i as int]));
                    }
                    i = i + 1;
                }
                proof {
                    assert(cmd_data@.take(n as int) =~= cmd_data@);
                    assert(out@.subrange(8, 8 + n + 2) =~= seq![COMMAND_MARKER, *cmd_code] + cmd_data@);
                }
                let dcs = Self::checksum(&out.as_slice()[8..8 + n + 2]);
                out.push(dcs);
                proof {
                    assert(out@ =~= frame_spec(COMMAND_MARKER, *cmd_code, cmd_data@));
                }
                out
            }
        }
    }

    /// Parses a received buffer into a packet, rejecting it whole on any
    /// mismatch; returns exactly what `decode_spec` says of the bytes.
    pub fn deserialize(packet: &[u8]) -> (r: Result<Packet, FrameError>)
        ensures
            match r {
                Ok(p) => decode_spec(packet@) == Ok::<PacketModel, FrameError>(p@),
                Err(e) => decode_spec(packet@) == Err::<PacketModel, FrameError>(e),
            },
    {
        let n = packet.len();
        if n >= 6 && packet[0] == 0x00 && packet[1] == 0x00 && packet[2] == 0xff
            && packet[3] == 0x00 && packet[4] == 0xff && packet[5] == 0x00 {
            proof {
                assert(packet@.take(6) =~= Packet::ack_spec());
            }
            return Ok(Packet::Ack);
        }
        proof {
            if packet@.len() >= 6 && packet@.take(6) == Packet::ack_spec() {
                assert(packet@[0] == 0x00 && packet@[1] == 0x00 && packet@[2] == 0xff
                    && packet@[3] == 0x00 && packet@[4] == 0xff && packet@[5] == 0x00);
                assert(false);
            }
        }
        if n == 5 && packet[0] == 0x00 && packet[1] == 0x00 && packet[2] == 0xff
            && packet[3] == 0xff && packet[4] == 0xff {
            proof {
                assert(packet@ =~= Packet::err_spec());
            }
            return Ok(Packet::Error);
        }
        proof {
            if packet@ == Packet::err_spec() {
                assert(packet@.len() == 5 && packet@[0] == 0x00 && packet@[1] == 0x00
                    && packet@[2] == 0xff && packet@[3] == 0xff && packet@[4] == 0xff);
                assert(false);
            }
        }
        if n < 9 || !(packet[0] == 0x00 && packet[1] == 0x00 && packet[2] == 0xff
            && packet[3] == 0xff && packet[4] == 0xff) {
            proof {
                if packet@.len() >= 9 && packet@.take(5) == Packet::err_spec() {
                    assert(packet@[0] == 0x00 && packet@[1] == 0x00 && packet@[2] == 0xff
                        && packet@[3] == 0xff && packet@[4] == 0xff);
                }
            }
            return Err(FrameError::MalformedPreamble);
        }
        proof {
            assert(packet@.take(5) =~= Packet::err_spec());
        }
        let len: usize = packet[5] as usize + 0x100 * (packet[6] as usize);
        let lcs = Self::checksum_pair(packet[5], packet[6]);
        if packet[7] != lcs {
            return Err(FrameError::ChecksumMismatch);
        }
        if len < 2 || n < 9 + len {
            return Err(FrameError::MalformedPreamble);
        }
        let body = &packet[8..8 + len];
        if !(body[0] == COMMAND_MARKER || body[0] == RESPONSE_MARKER) {
            return Err(FrameError::UnexpectedFrameType);
        }
        let dcs = Self::checksum(body);
        if packet[8 + len] != dcs {
            return Err(FrameError::ChecksumMismatch);
        }
        let cmd_code = body[1];
        let cmd_data = vstd::slice::slice_to_vec(&body[2..len]);
        proof {
            assert(cmd_data@ =~= packet@.subrange(8, 8 + len as int).skip(2));
        }
        Ok(Packet::Data { cmd_code, cmd_data })
    }
}

} // verus!
