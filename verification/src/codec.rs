//! The wire format of a move: two bytes, the column and then the row.

use crate::board::Position;
use vstd::prelude::*;

verus! {

/// The number of bytes in one packet.
pub const PACKET_LEN: usize = 2;

/// The two bytes that carry `pos`: its column first, its row second.
pub open spec fn packet_of(pos: Position) -> Seq<u8> {
    seq![pos.col, pos.row]
}

/// The position that a packet carries. Every byte value is taken as it
/// comes: a packet may name a place that is not on the board.
pub open spec fn position_of(bytes: Seq<u8>) -> Position
    recommends
        bytes.len() == 2,
{
    Position { col: bytes[0], row: bytes[1] }
}

/// Writes a position as a packet. Nothing is checked: any position has a
/// packet.
pub fn encode(pos: Position) -> (packet: [u8; 2])
    ensures
        packet@ == packet_of(pos),
        packet@[0] == pos.col,
        packet@[1] == pos.row,
{
    let packet: [u8; 2] = [pos.col, pos.row];
    assert(packet@ =~= packet_of(pos));
    packet
}

/// Reads a packet back into a position. Nothing is checked either: the
/// bytes are trusted, also where they exceed the board.
pub fn decode(packet: [u8; 2]) -> (pos: Position)
    ensures
        pos == position_of(packet@),
        pos.col == packet@[0],
        pos.row == packet@[1],
{
    Position { col: packet[0], row: packet[1] }
}

/// Decoding what was encoded gives the position back, for every position
/// that two bytes can hold.
pub proof fn lemma_decode_encode(pos: Position)
    ensures
        position_of(packet_of(pos)) == pos,
{
}

/// Encoding what was decoded gives the packet back, for every packet.
pub proof fn lemma_encode_decode(bytes: Seq<u8>)
    requires
        bytes.len() == 2,
    ensures
        packet_of(position_of(bytes)) == bytes,
{
    assert(packet_of(position_of(bytes)) =~= bytes);
}

/// Two positions with the same packet are the same position.
pub proof fn lemma_packet_injective(a: Position, b: Position)
    requires
        packet_of(a) == packet_of(b),
    ensures
        a == b,
{
    assert(packet_of(a)[0] == a.col && packet_of(b)[0] == b.col);
    assert(packet_of(a)[1] == a.row && packet_of(b)[1] == b.row);
}

} // verus!
