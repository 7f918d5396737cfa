//! Wire format of the one event the position broadcast sends: a
//! fixed-layout record of a 32-bit player id and two 32-bit position
//! words, each little-endian. The position words carry the bit patterns
//! of the sender's x and y coordinates; this library never interprets
//! them as numbers.

use vstd::prelude::*;

verus! {

/// One player-position event, as it crosses the wire.
#[derive(Clone, Copy, Debug, PartialEq, Eq, Structural)]
pub struct PlayerEvent {
    pub player_id: u32,
    /// Bit pattern of the x coordinate.
    pub x_bits: u32,
    /// Bit pattern of the y coordinate.
    pub y_bits: u32,
}

/// Why a buffer failed to decode.
#[derive(Clone, Copy, Debug, PartialEq, Eq, Structural)]
pub enum DecodeError {
    /// The buffer was not exactly one record long.
    WrongLength,
}

/// The number of bytes of an encoded event.
pub const EVENT_LEN: usize = 12;

/// The four little-endian bytes of `v`.
pub open spec fn u32_le(v: u32) -> Seq<u8> {
    seq![
        (v % 256) as u8,
        ((v / 256) % 256) as u8,
        ((v / 65536) % 256) as u8,
        (v / 16777216) as u8,
    ]
}

/// The value the four little-endian bytes `b` (of length 4) stand for.
pub open spec fn u32_from_le(b: Seq<u8>) -> int {
    b[0] + 256 * b[1] + 65536 * b[2] + 16777216 * b[3]
}

/// The encoded form of `e`: id, x word, y word, each little-endian.
pub open spec fn encoded_event(e: PlayerEvent) -> Seq<u8> {
    u32_le(e.player_id) + u32_le(e.x_bits) + u32_le(e.y_bits)
}

/// The event a 12-byte buffer stands for.
pub open spec fn decoded_event(b: Seq<u8>) -> PlayerEvent {
    PlayerEvent {
        player_id: u32_from_le(b.subrange(0, 4)) as u32,
        x_bits: u32_from_le(b.subrange(4, 8)) as u32,
        y_bits: u32_from_le(b.subrange(8, 12)) as u32,
    }
}

proof fn lemma_u32_le_from_le(v: u32)
    ensures
        u32_from_le(u32_le(v)) == v,
{
    assert((v % 256) + 256 * ((v / 256) % 256) + 65536 * ((v / 65536) % 256) + 16777216 * (v
        / 16777216) == v) by (bit_vector);
}

proof fn lemma_u32_from_le_le(b: Seq<u8>)
    requires
        b.len() == 4,
    ensures
        u32_from_le(b) < 0x1_0000_0000,
        u32_le(u32_from_le(b) as u32) == b,
{
    let b0 = b[0] as u32;
    let b1 = b[1] as u32;
    let b2 = b[2] as u32;
    let b3 = b[3] as u32;
    let v = (b0 + 256 * b1 + 65536 * b2 + 16777216 * b3) as u32;
    assert(b0 < 256 && b1 < 256 && b2 < 256 && b3 < 256);
    assert(b0 + 256 * b1 + 65536 * b2 + 16777216 * b3 < 0x1_0000_0000);
    assert(v % 256 == b0 && (v / 256) % 256 == b1 && (v / 65536) % 256 == b2 && v / 16777216 == b3
        ==> u32_le(v) =~= b);
    assert({
        let w = (b0 + 256 * b1 + 65536 * b2 + 16777216 * b3) as u32;
        b0 < 256 && b1 < 256 && b2 < 256 && b3 < 256 ==> (w % 256 == b0 && (w / 256) % 256 == b1
            && (w / 65536) % 256 == b2 && w / 16777216 == b3)
    }) by (bit_vector);
}

/// Round trip: decoding what `encode` wrote gives the event back.
pub proof fn lemma_event_round_trip(e: PlayerEvent)
    ensures
        decoded_event(encoded_event(e)) == e,
{
    lemma_u32_le_from_le(e.player_id);
    lemma_u32_le_from_le(e.x_bits);
    lemma_u32_le_from_le(e.y_bits);
    assert(encoded_event(e).subrange(0, 4) =~= u32_le(e.player_id));
    assert(encoded_event(e).subrange(4, 8) =~= u32_le(e.x_bits));
    assert(encoded_event(e).subrange(8, 12) =~= u32_le(e.y_bits));
}

/// Round trip the other way: re-encoding a decoded 12-byte buffer gives
/// the same bytes.
pub proof fn lemma_event_reencode(b: Seq<u8>)
    requires
        b.len() == 12,
    ensures
        encoded_event(decoded_event(b)) == b,
{
    lemma_u32_from_le_le(b.subrange(0, 4));
    lemma_u32_from_le_le(b.subrange(4, 8));
    lemma_u32_from_le_le(b.subrange(8, 12));
    assert(encoded_event(decoded_event(b)) =~= b);
}

fn push_u32_le(out: &mut Vec<u8>, v: u32)
    ensures
        final(out)@ == old(out)@ + u32_le(v),
{
    let ghost pre = out@;
    out.push((v % 256) as u8);
    out.push(((v / 256) % 256) as u8);
    out.push(((v / 65536) % 256) as u8);
    out.push((v / 16777216) as u8);
    proof {
        assert(out@ =~= pre + u32_le(v));
    }
}

fn read_u32_le(bytes: &[u8], off: usize) -> (r: u32)
    requires
        off + 4 <= bytes@.len(),
    ensures
        r == u32_from_le(bytes@.subrange(off as int, off + 4)),
{
    let b0 = bytes[off] as u32;
    let b1 = bytes[off + 1] as u32;
    let b2 = bytes[off + 2] as u32;
    let b3 = bytes[off + 3] as u32;
    b0 + 256 * b1 + 65536 * b2 + 16777216 * b3
}

impl PlayerEvent {
    /// Encodes the event as its 12-byte record.
    pub fn encode(&self) -> (r: Vec<u8>)
        ensures
            r@ == encoded_event(*self),
            r@.len() == EVENT_LEN,
    {
        let mut out: Vec<u8> = Vec::new();
        push_u32_le(&mut out, self.player_id);
        push_u32_le(&mut out, self.x_bits);
        push_u32_le(&mut out, self.y_bits);
        proof {
            assert(out@ =~= encoded_event(*self));
        }
        out
    }

    /// Decodes a received buffer: accepts exactly one whole record.
    pub fn decode(bytes: &[u8]) -> (r: Result<PlayerEvent, DecodeError>)
        ensures
            r is Ok <==> bytes@.len() == EVENT_LEN,
            r matches Ok(e) ==> e == decoded_event(bytes@),
            r matches Err(err) ==> err == DecodeError::WrongLength,
    {
        if bytes.len() != EVENT_LEN {
            return Err(DecodeError::WrongLength);
        }
        Ok(
            PlayerEvent {
                player_id: read_u32_le(bytes, 0),
                x_bits: read_u32_le(bytes, 4),
                y_bits: read_u32_le(bytes, 8),
            },
        )
    }
}

} // verus!
