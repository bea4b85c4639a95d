//! Wire protocol codec: stateless encode/decode for the two message
//! families that cross the telemetry channel.
//!
//! Every 64-bit floating-point field of the wire format travels as its
//! IEEE-754 bit pattern, unchanged, in big-endian byte order. The codec
//! therefore works on the 64-bit patterns themselves (`u64`), which lets
//! every byte of the layout be stated and proved exactly; the I/O layer
//! converts between floats and their bit patterns at the boundary.

use vstd::prelude::*;
use byteorder::{BigEndian, ReadBytesExt, WriteBytesExt};
use std::io::Cursor;

verus! {

/// One pose/trigger sample from a handheld motion controller, as sampled
/// once per application tick. Each field holds the bit pattern of the
/// sampled 64-bit float.
#[derive(Copy, Clone, Debug, PartialEq, Eq, Structural)]
pub struct ControllerSample {
    pub pos_x: u64,
    pub pos_y: u64,
    pub pos_z: u64,
    pub quat_w: u64,
    pub quat_i: u64,
    pub quat_j: u64,
    pub quat_k: u64,
    pub joystick_x: u64,
    pub joystick_y: u64,
    pub trigger: u64,
}

/// Which physical controller unit a sample came from.
#[derive(Copy, Clone, Debug, PartialEq, Eq, Structural)]
pub enum Hand {
    Left,
    Right,
}

/// A message sent by the driver station to the robot. The leading tag byte
/// of the encoding (0 for `Sixense`) leaves room for further variants.
#[derive(Copy, Clone, Debug, PartialEq, Eq, Structural)]
pub enum DsMessage {
    Sixense(ControllerSample, Hand),
}

/// A message received from the robot: tag byte 0 followed by one
/// big-endian 64-bit float carrying a gyro reading (held here as its bit
/// pattern).
#[derive(Copy, Clone, Debug, PartialEq, Eq, Structural)]
pub enum RobotMessage {
    Gyro(u64),
}

/// The eight bytes of `x`, most significant first.
pub open spec fn be_bytes_of_u64(x: u64) -> Seq<u8> {
    seq![
        (x >> 56) as u8,
        (x >> 48) as u8,
        (x >> 40) as u8,
        (x >> 32) as u8,
        (x >> 24) as u8,
        (x >> 16) as u8,
        (x >> 8) as u8,
        x as u8,
    ]
}

/// The value that eight bytes spell, most significant first.
pub open spec fn u64_of_be_bytes(s: Seq<u8>) -> u64
    recommends
        s.len() == 8,
{
    (((s[0] as u64) << 56) | ((s[1] as u64) << 48) | ((s[2] as u64) << 40)
        | ((s[3] as u64) << 32) | ((s[4] as u64) << 24) | ((s[5] as u64) << 16)
        | ((s[6] as u64) << 8) | (s[7] as u64))
}

/// The byte that encodes a hand on the wire.
pub open spec fn hand_byte(h: Hand) -> u8 {
    match h {
        Hand::Left => 0,
        Hand::Right => 1,
    }
}

/// The ten float fields of a sample in their fixed wire order.
pub open spec fn sample_bytes(d: ControllerSample) -> Seq<u8> {
    be_bytes_of_u64(d.pos_x) + be_bytes_of_u64(d.pos_y) + be_bytes_of_u64(d.pos_z)
        + be_bytes_of_u64(d.quat_w) + be_bytes_of_u64(d.quat_i) + be_bytes_of_u64(d.quat_j)
        + be_bytes_of_u64(d.quat_k) + be_bytes_of_u64(d.joystick_x)
        + be_bytes_of_u64(d.joystick_y) + be_bytes_of_u64(d.trigger)
}

/// The full outbound wire image: tag byte 0, ten big-endian float fields,
/// one hand byte — 82 bytes in all.
pub open spec fn encoded_bytes(m: DsMessage) -> Seq<u8> {
    match m {
        DsMessage::Sixense(d, h) => seq![0u8] + sample_bytes(d) + seq![hand_byte(h)],
    }
}

/// What `decode` yields on an arbitrary byte sequence: tag byte 0 followed
/// by at least eight payload bytes gives a gyro reading; a missing tag, an
/// unknown tag, or a short payload gives nothing. Total over all inputs.
pub open spec fn decoded(data: Seq<u8>) -> Option<RobotMessage> {
    if data.len() >= 9 && data[0] == 0 {
        Some(RobotMessage::Gyro(u64_of_be_bytes(data.subrange(1, 9))))
    } else {
        None
    }
}

/// Relies on byteorder's `WriteBytesExt::write_u64::<BigEndian>` on a byte
/// vector: it appends exactly the eight bytes of the value, most
/// significant first, and writing into a `Vec` never fails.
#[verifier::external_body]
fn write_u64_be(buf: &mut Vec<u8>, x: u64)
    ensures
        final(buf)@ == old(buf)@ + be_bytes_of_u64(x),
{
    let _ = buf.write_u64::<BigEndian>(x);
}

/// Relies on byteorder's `ReadBytesExt::read_u64::<BigEndian>` through a
/// cursor: with at least eight bytes available from `pos` on, it returns
/// the big-endian value that those eight bytes spell.
#[verifier::external_body]
fn read_u64_be_at(data: &[u8], pos: usize) -> (r: u64)
    requires
        pos + 8 <= data@.len(),
    ensures
        r == u64_of_be_bytes(data@.subrange(pos as int, pos as int + 8)),
{
    let mut cursor = Cursor::new(&data[pos..]);
    cursor.read_u64::<BigEndian>().expect("eight bytes are available")
}

/// The inbound wire image of a gyro reading built directly: tag byte 0
/// followed by the reading's eight big-endian bytes. Encode and decode
/// serve opposite directions of the link, so the inbound format is
/// constructed here rather than by `encode`.
pub open spec fn gyro_wire_bytes(v: u64) -> Seq<u8> {
    seq![0u8] + be_bytes_of_u64(v)
}

/// Splitting a value into its eight big-endian bytes and reading them back
/// recovers the value bit for bit.
pub proof fn lemma_be_u64_round_trip(x: u64)
    ensures
        u64_of_be_bytes(be_bytes_of_u64(x)) == x,
{
    assert(((x >> 56) as u8 as u64) << 56 | ((x >> 48) as u8 as u64) << 48
        | ((x >> 40) as u8 as u64) << 40 | ((x >> 32) as u8 as u64) << 32
        | ((x >> 24) as u8 as u64) << 24 | ((x >> 16) as u8 as u64) << 16
        | ((x >> 8) as u8 as u64) << 8 | (x as u8 as u64) == x) by (bit_vector);
}

/// LAW: decoding the wire image of any gyro reading recovers the reading
/// bit for bit.
pub proof fn lemma_gyro_round_trip(v: u64)
    ensures
        decoded(gyro_wire_bytes(v)) == Some(RobotMessage::Gyro(v)),
{
    let data = gyro_wire_bytes(v);
    assert(data.subrange(1, 9) =~= be_bytes_of_u64(v));
    lemma_be_u64_round_trip(v);
}

/// LAW: any byte sequence shorter than the nine bytes a gyro message
/// needs decodes to nothing, whatever its bytes hold; in particular one
/// that starts with tag byte 0 but ends before its payload does.
pub proof fn lemma_decode_short_rejected(data: Seq<u8>)
    requires
        data.len() < 9,
    ensures
        decoded(data) is None,
{
}

/// LAW: any byte sequence whose tag byte is not 0 decodes to nothing,
/// regardless of the bytes that trail it.
pub proof fn lemma_decode_unknown_tag_rejected(data: Seq<u8>)
    requires
        data.len() >= 1,
        data[0] != 0,
    ensures
        decoded(data) is None,
{
}

/// LAW: every encoded outbound message is exactly 82 bytes, with the tag
/// byte first, each of the ten float fields at its fixed offset in
/// big-endian order, and the hand byte last.
pub proof fn lemma_encoded_layout(d: ControllerSample, h: Hand)
    ensures
        ({
            let bytes = encoded_bytes(DsMessage::Sixense(d, h));
            &&& bytes.len() == 82
            &&& bytes[0] == 0
            &&& bytes.subrange(1, 9) == be_bytes_of_u64(d.pos_x)
            &&& bytes.subrange(9, 17) == be_bytes_of_u64(d.pos_y)
            &&& bytes.subrange(17, 25) == be_bytes_of_u64(d.pos_z)
            &&& bytes.subrange(25, 33) == be_bytes_of_u64(d.quat_w)
            &&& bytes.subrange(33, 41) == be_bytes_of_u64(d.quat_i)
            &&& bytes.subrange(41, 49) == be_bytes_of_u64(d.quat_j)
            &&& bytes.subrange(49, 57) == be_bytes_of_u64(d.quat_k)
            &&& bytes.subrange(57, 65) == be_bytes_of_u64(d.joystick_x)
            &&& bytes.subrange(65, 73) == be_bytes_of_u64(d.joystick_y)
            &&& bytes.subrange(73, 81) == be_bytes_of_u64(d.trigger)
            &&& bytes[81] == hand_byte(h)
        }),
{
    let bytes = encoded_bytes(DsMessage::Sixense(d, h));
    assert(bytes.subrange(1, 9) =~= be_bytes_of_u64(d.pos_x));
    assert(bytes.subrange(9, 17) =~= be_bytes_of_u64(d.pos_y));
    assert(bytes.subrange(17, 25) =~= be_bytes_of_u64(d.pos_z));
    assert(bytes.subrange(25, 33) =~= be_bytes_of_u64(d.quat_w));
    assert(bytes.subrange(33, 41) =~= be_bytes_of_u64(d.quat_i));
    assert(bytes.subrange(41, 49) =~= be_bytes_of_u64(d.quat_j));
    assert(bytes.subrange(49, 57) =~= be_bytes_of_u64(d.quat_k));
    assert(bytes.subrange(57, 65) =~= be_bytes_of_u64(d.joystick_x));
    assert(bytes.subrange(65, 73) =~= be_bytes_of_u64(d.joystick_y));
    assert(bytes.subrange(73, 81) =~= be_bytes_of_u64(d.trigger));
}

impl DsMessage {
    /// Encode one outbound message into its fixed 82-byte wire image.
    pub fn encode(&self) -> (r: Vec<u8>)
        ensures
            r@ == encoded_bytes(*self),
            r@.len() == 82,
    {
        let mut msg: Vec<u8> = Vec::new();
        match *self {
            DsMessage::Sixense(data, hand) => {
                msg.push(0u8);
                write_u64_be(&mut msg, data.pos_x);
                write_u64_be(&mut msg, data.pos_y);
                write_u64_be(&mut msg, data.pos_z);
                write_u64_be(&mut msg, data.quat_w);
                write_u64_be(&mut msg, data.quat_i);
                write_u64_be(&mut msg, data.quat_j);
                write_u64_be(&mut msg, data.quat_k);
                write_u64_be(&mut msg, data.joystick_x);
                write_u64_be(&mut msg, data.joystick_y);
                write_u64_be(&mut msg, data.trigger);
                msg.push(match hand {
                    Hand::Left => 0u8,
                    Hand::Right => 1u8,
                });
                proof {
                    assert(msg@ =~= encoded_bytes(*self));
                }
            },
        }
        msg
    }
}

impl RobotMessage {
    /// Decode one inbound datagram. Total over arbitrary bytes: an unknown
    /// tag or a buffer too short at any read step yields `None`, never a
    /// fault, and no byte beyond the buffer is ever read.
    pub fn decode(data: &[u8]) -> (r: Option<RobotMessage>)
        ensures
            r == decoded(data@),
    {
        if data.len() < 1 {
            return None;
        }
        let token = data[0];
        if token != 0 {
            return None;
        }
        if data.len() < 9 {
            return None;
        }
        Some(RobotMessage::Gyro(read_u64_be_at(data, 1)))
    }
}

} // verus!
