//! What holds of every packet that the library builds, writes and reads.

use crate::checksum::crc16_modbus;
use crate::packet::{framed, high_byte, low_byte, word_of, Packet, MAX_FRAME, OVERHEAD, SYNC};
use vstd::prelude::*;

verus! {

/// The two bytes of a 16-bit field give the field back.
pub proof fn lemma_word_of_bytes(word: u16)
    ensures
        word_of(low_byte(word), high_byte(word)) == word,
{
}

/// A frame is six bytes longer than its payload: at least 6 bytes, at most
/// 261.
pub proof fn lemma_frame_length(packet: Packet)
    ensures
        packet.wire().len() == packet.length + OVERHEAD,
        OVERHEAD <= packet.wire().len() <= MAX_FRAME,
{
}

/// The frame of a packet built from a command and a payload of at most 255
/// bytes is 0xAA, 0x55, the command and the payload's length, then the payload
/// byte for byte, then the two bytes of the checksum: six bytes more than the
/// payload.
pub proof fn lemma_built_frame_layout(packet: Packet, command: u8, payload: Seq<u8>)
    requires
        packet.built_from(command, Some(payload)),
    ensures
        packet.wire().len() == payload.len() + OVERHEAD,
        packet.wire().take(4) == seq![0xAAu8, 0x55u8, command, payload.len() as u8],
        packet.wire().subrange(4, 4 + payload.len() as int) == payload,
        packet.wire().skip(4 + payload.len() as int) == seq![
            low_byte(packet.checksum),
            high_byte(packet.checksum),
        ],
{
    assert(packet.payload_bytes() =~= payload);
    assert(packet.wire().take(4) =~= seq![0xAAu8, 0x55u8, command, payload.len() as u8]);
    assert(packet.wire().subrange(4, 4 + payload.len() as int) =~= payload);
    assert(packet.wire().skip(4 + payload.len() as int) =~= seq![
        low_byte(packet.checksum),
        high_byte(packet.checksum),
    ]);
}

/// The frame of a packet built from a command alone is exactly six bytes:
/// 0xAA, 0x55, the command, zero, and the two bytes of the checksum.
pub proof fn lemma_built_frame_without_payload(packet: Packet, command: u8)
    requires
        packet.built_from(command, None),
    ensures
        packet.wire() == seq![
            0xAAu8,
            0x55u8,
            command,
            0u8,
            low_byte(packet.checksum),
            high_byte(packet.checksum),
        ],
{
    assert(packet.wire() =~= seq![
        0xAAu8,
        0x55u8,
        command,
        0u8,
        low_byte(packet.checksum),
        high_byte(packet.checksum),
    ]);
}

/// The checksum of a built packet covers the header and every byte of the
/// payload, whatever the bytes are: a zero byte in the payload ends nothing.
pub proof fn lemma_built_checksum_covers_payload(packet: Packet, command: u8, payload: Seq<u8>)
    requires
        packet.built_from(command, Some(payload)),
    ensures
        packet.payload_bytes() == payload,
        packet.checksum == crc16_modbus(
            seq![0xAAu8, 0x55u8, command, payload.len() as u8] + payload,
        ),
{
    assert(packet.payload_bytes() =~= payload);
    assert(packet.header() =~= seq![0xAAu8, 0x55u8, command, payload.len() as u8]);
}

/// A packet as it was built passes validation.
pub proof fn lemma_built_packet_is_intact(packet: Packet, command: u8, payload: Option<Seq<u8>>)
    requires
        packet.built_from(command, payload),
    ensures
        packet.intact(),
{
}

/// A built packet in which a byte of the stored checksum was changed, or
/// both, fails validation.
pub proof fn lemma_changed_checksum_is_refused(
    packet: Packet,
    command: u8,
    payload: Option<Seq<u8>>,
    low: u8,
    high: u8,
)
    requires
        packet.built_from(command, payload),
        low != low_byte(packet.checksum) || high != high_byte(packet.checksum),
    ensures
        !(Packet { checksum: word_of(low, high), ..packet }).intact(),
{
    let changed = Packet { checksum: word_of(low, high), ..packet };
    assert(changed.covered() == packet.covered());
    assert(low_byte(changed.checksum) == low && high_byte(changed.checksum) == high);
}

/// Reading gives back what writing put down: the frame of any packet with the
/// sync marker in place, whatever follows it, reads as a packet with the same
/// command, length, payload bytes and checksum, and so with the same frame.
pub proof fn lemma_read_recovers_written(packet: Packet, rest: Seq<u8>, read: Packet)
    requires
        packet.sync == SYNC,
        read.parsed_from(packet.wire() + rest),
    ensures
        framed(packet.wire() + rest),
        read.sync == packet.sync,
        read.command == packet.command,
        read.length == packet.length,
        read.payload_bytes() == packet.payload_bytes(),
        read.checksum == packet.checksum,
        read.wire() == packet.wire(),
        read.intact() == packet.intact(),
{
    let bytes = packet.wire() + rest;
    let count = packet.length as int;
    assert(packet.wire().len() == count + OVERHEAD);
    assert(bytes[0] == low_byte(packet.sync));
    assert(bytes[1] == high_byte(packet.sync));
    assert(bytes[2] == packet.command);
    assert(bytes[3] == packet.length);
    assert(bytes[4 + count] == low_byte(packet.checksum));
    assert(bytes[5 + count] == high_byte(packet.checksum));
    lemma_word_of_bytes(packet.checksum);
    assert forall|k: int| 0 <= k < count implies read.payload_bytes()[k]
        == packet.payload_bytes()[k] by {
        assert(bytes.subrange(4, 4 + count)[k] == bytes[4 + k]);
        assert(bytes[4 + k] == packet.wire()[4 + k]);
    }
    assert(read.payload_bytes() =~= packet.payload_bytes());
    assert(read.header() =~= packet.header());
}

} // verus!
