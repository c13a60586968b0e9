//! The packet: one frame in memory, and its bytes on the wire.

use crate::checksum::{crc16_modbus, modbus};
use vstd::pervasive::runtime_assert;
use vstd::prelude::*;

verus! {

/// The marker that opens every frame; on the wire 0xAA, then 0x55.
pub const SYNC: u16 = 0x55AA;

/// The most payload bytes one frame carries.
pub const MAX_PAYLOAD: usize = 255;

/// The bytes of a frame around its payload: sync, command, length, checksum.
pub const OVERHEAD: usize = 6;

/// The bytes of the largest frame; a buffer of this size holds any frame.
pub const MAX_FRAME: usize = 261;

/// The low byte of a 16-bit field, the one that goes on the wire first.
pub open spec fn low_byte(word: u16) -> u8 {
    (word % 256) as u8
}

/// The high byte of a 16-bit field, the one that goes on the wire second.
pub open spec fn high_byte(word: u16) -> u8 {
    (word / 256) as u8
}

/// The 16-bit field whose bytes on the wire are `low`, then `high`.
pub open spec fn word_of(low: u8, high: u8) -> u16 {
    (low + 256 * high) as u16
}

/// `count` zero bytes.
pub open spec fn zeros(count: nat) -> Seq<u8> {
    Seq::new(count, |i: int| 0u8)
}

/// Why a packet could not be built, written or read.
#[derive(Debug, Clone, Copy, PartialEq, Eq, Structural)]
pub enum PacketError {
    /// The payload offered has more than 255 bytes.
    PayloadTooLarge,
    /// The buffer offered cannot hold the whole frame.
    BufferTooSmall,
    /// The bytes do not open with the sync marker, or end before the frame does.
    Framing,
}

/// What an offered payload holds, if one is offered.
pub open spec fn offered(payload: Option<&[u8]>) -> Option<Seq<u8>> {
    match payload {
        Some(bytes) => Some(bytes@),
        None => None,
    }
}

/// Whether `bytes` open with a whole frame: the sync marker, a command, a
/// length, and after them at least as many bytes as the length asks for and
/// two more for the checksum.
pub open spec fn framed(bytes: Seq<u8>) -> bool {
    &&& bytes.len() >= 4
    &&& bytes[0] == low_byte(SYNC)
    &&& bytes[1] == high_byte(SYNC)
    &&& bytes.len() >= bytes[3] + 6
}

/// One frame.
///
/// `length` says how many bytes of `payload` are meant; the rest of the buffer
/// is never sent nor checksummed. A packet without a buffer stands for one
/// whose buffer holds zeros.
#[derive(Debug, Clone, Copy)]
pub struct Packet {
    /// The marker that opens the frame: [`SYNC`] in every packet the library
    /// makes.
    pub sync: u16,
    /// What the frame asks for; every value is allowed.
    pub command: u8,
    /// How many bytes of the payload buffer are meant.
    pub length: u8,
    /// The payload buffer, the meant bytes first.
    pub payload: Option<[u8; 255]>,
    /// The checksum as it was computed or received.
    pub checksum: u16,
}

impl Packet {
    /// Whether the packet is one that the library builds or reads: the sync
    /// marker in place, and no length without a buffer. The checksum is not
    /// part of it: a packet read from the wire may carry a wrong one.
    pub open spec fn well_formed(self) -> bool {
        &&& self.sync == SYNC
        &&& self.payload is None ==> self.length == 0
    }

    /// The payload bytes that are meant: the first `length` bytes of the buffer.
    pub open spec fn payload_bytes(self) -> Seq<u8> {
        match self.payload {
            Some(buffer) => buffer@.take(self.length as int),
            None => zeros(self.length as nat),
        }
    }

    /// The four bytes before the payload: sync low, sync high, command, length.
    pub open spec fn header(self) -> Seq<u8> {
        seq![low_byte(self.sync), high_byte(self.sync), self.command, self.length]
    }

    /// The bytes that the checksum covers: the header, then the payload.
    pub open spec fn covered(self) -> Seq<u8> {
        self.header() + self.payload_bytes()
    }

    /// The checksum that belongs to the other fields.
    pub open spec fn expected_checksum(self) -> u16 {
        crc16_modbus(self.covered())
    }

    /// Whether the stored checksum is the one that belongs to the other fields.
    pub open spec fn intact(self) -> bool {
        self.checksum == self.expected_checksum()
    }

    /// The frame on the wire: the covered bytes, then the stored checksum, low
    /// byte first.
    pub open spec fn wire(self) -> Seq<u8> {
        self.covered() + seq![low_byte(self.checksum), high_byte(self.checksum)]
    }

    /// Whether this is the packet that carries `command` and `payload`: the
    /// sync marker in place, the payload at the start of a buffer that holds
    /// zeros after it (no buffer where no payload is offered), the length that
    /// of the payload, and the checksum the one that belongs to them.
    pub open spec fn built_from(self, command: u8, payload: Option<Seq<u8>>) -> bool {
        &&& self.sync == SYNC
        &&& self.command == command
        &&& match payload {
            Some(bytes) => {
                &&& bytes.len() <= MAX_PAYLOAD
                &&& self.length == bytes.len()
                &&& self.payload matches Some(buffer)
                &&& buffer@ == bytes + zeros((MAX_PAYLOAD - bytes.len()) as nat)
            },
            None => self.length == 0 && self.payload is None,
        }
        &&& self.intact()
    }

    /// Whether this is the packet that the frame at the start of `bytes`
    /// spells out: each field as the frame gives it, the payload at the start
    /// of a buffer that holds zeros after it.
    pub open spec fn parsed_from(self, bytes: Seq<u8>) -> bool
        recommends
            framed(bytes),
    {
        let count = bytes[3] as int;
        &&& self.sync == word_of(bytes[0], bytes[1])
        &&& self.command == bytes[2]
        &&& self.length == bytes[3]
        &&& self.payload matches Some(buffer)
        &&& buffer@ == bytes.subrange(4, 4 + count) + zeros((MAX_PAYLOAD - count) as nat)
        &&& self.checksum == word_of(bytes[4 + count], bytes[5 + count])
    }
}

impl Packet {
    /// An empty packet: the sync marker in place and nothing else set. Its
    /// checksum is not yet the one that belongs to it.
    pub fn new() -> (packet: Packet)
        ensures
            packet.sync == SYNC,
            packet.command == 0,
            packet.length == 0,
            packet.payload is None,
            packet.checksum == 0,
            packet.well_formed(),
    {
        Packet { sync: SYNC, command: 0, length: 0, payload: None, checksum: 0 }
    }

    /// Builds the packet that carries `command` and `payload`, checksum
    /// included.
    pub fn from(command: u8, payload: Option<&[u8]>) -> (packet: Packet)
        requires
            payload matches Some(bytes) ==> bytes@.len() <= MAX_PAYLOAD,
        ensures
            packet.built_from(command, offered(payload)),
            packet.well_formed(),
    {
        let mut packet = Packet::new();
        packet.command = command;
        if let Some(source) = payload {
            let count: usize = source.len();
            runtime_assert(count <= MAX_PAYLOAD);
            let mut buffer: [u8; 255] = [0u8; 255];
            let mut done: usize = 0;
            while done < count
                invariant
                    done <= count == source@.len() <= MAX_PAYLOAD,
                    forall|k: int| 0 <= k < done ==> buffer@[k] == source@[k],
                    forall|k: int| done <= k < MAX_PAYLOAD ==> buffer@[k] == 0,
                decreases count - done,
            {
                buffer[done] = source[done];
                done += 1;
            }
            assert(buffer@ =~= source@ + zeros((MAX_PAYLOAD - count) as nat));
            packet.length = count as u8;
            packet.payload = Some(buffer);
        }
        packet.checksum = packet.compute_checksum();
        packet
    }

    /// Builds the packet that carries `command` and `payload`, or says that
    /// the payload is too large for one frame.
    pub fn try_from(command: u8, payload: Option<&[u8]>) -> (result: Result<Packet, PacketError>)
        ensures
            match result {
                Ok(packet) => packet.built_from(command, offered(payload)) && packet.well_formed(),
                Err(error) => {
                    &&& error == PacketError::PayloadTooLarge
                    &&& payload matches Some(bytes)
                    &&& bytes@.len() > MAX_PAYLOAD
                },
            },
    {
        if let Some(source) = payload {
            if source.len() > MAX_PAYLOAD {
                return Err(PacketError::PayloadTooLarge);
            }
        }
        Ok(Packet::from(command, payload))
    }

    /// Lays the covered bytes out at the start of `buffer`.
    fn write_covered(&self, buffer: &mut [u8])
        requires
            old(buffer)@.len() >= self.length + 4,
        ensures
            final(buffer)@ == self.covered() + old(buffer)@.skip(self.length + 4),
    {
        let count: usize = self.length as usize;
        buffer[0] = (self.sync % 256) as u8;
        buffer[1] = (self.sync / 256) as u8;
        buffer[2] = self.command;
        buffer[3] = self.length;
        let mut done: usize = 0;
        while done < count
            invariant
                done <= count == self.length,
                buffer@.len() == old(buffer)@.len(),
                buffer@.len() >= count + 4,
                forall|k: int| 0 <= k < 4 + done ==> buffer@[k] == self.covered()[k],
                forall|k: int| 4 + done <= k < buffer@.len() ==> buffer@[k] == old(buffer)@[k],
            decreases count - done,
        {
            let byte: u8 = match self.payload {
                Some(bytes) => bytes[done],
                None => 0,
            };
            buffer[4 + done] = byte;
            done += 1;
        }
        assert(buffer@ =~= self.covered() + old(buffer)@.skip(self.length + 4));
    }

    /// Writes the frame to the start of `buffer` and returns how many bytes it
    /// takes; the rest of `buffer` keeps what it held.
    pub fn write_bytes(&self, buffer: &mut [u8]) -> (written: u32)
        requires
            old(buffer)@.len() >= self.length + OVERHEAD,
        ensures
            written == self.length + OVERHEAD,
            final(buffer)@ == self.wire() + old(buffer)@.skip(written as int),
    {
        let count: usize = self.length as usize;
        runtime_assert(buffer.len() >= count + OVERHEAD);
        self.write_covered(buffer);
        buffer[4 + count] = (self.checksum % 256) as u8;
        buffer[5 + count] = (self.checksum / 256) as u8;
        assert(buffer@ =~= self.wire() + old(buffer)@.skip(self.length + OVERHEAD));
        (count + OVERHEAD) as u32
    }

    /// Writes the frame to the start of `buffer` and returns how many bytes it
    /// takes, or says that `buffer` is too small and leaves it as it was.
    pub fn try_write_bytes(&self, buffer: &mut [u8]) -> (result: Result<u32, PacketError>)
        ensures
            match result {
                Ok(written) => {
                    &&& old(buffer)@.len() >= self.length + OVERHEAD
                    &&& written == self.length + OVERHEAD
                    &&& final(buffer)@ == self.wire() + old(buffer)@.skip(written as int)
                },
                Err(error) => {
                    &&& error == PacketError::BufferTooSmall
                    &&& old(buffer)@.len() < self.length + OVERHEAD
                    &&& final(buffer)@ == old(buffer)@
                },
            },
    {
        if buffer.len() < self.length as usize + OVERHEAD {
            return Err(PacketError::BufferTooSmall);
        }
        Ok(self.write_bytes(buffer))
    }

    /// Computes the checksum that belongs to the other fields.
    fn compute_checksum(&self) -> (crc: u16)
        ensures
            crc == self.expected_checksum(),
    {
        let mut frame: [u8; 259] = [0u8; 259];
        self.write_covered(&mut frame);
        let covered = vstd::slice::slice_subrange(frame.as_slice(), 0, 4 + self.length as usize);
        assert(covered@ =~= self.covered());
        modbus(covered)
    }

    /// Hands the packet back where its checksum is the one that belongs to its
    /// other fields, and refuses it where it is not.
    pub fn validate(self) -> (result: Result<Packet, ()>)
        ensures
            match result {
                Ok(packet) => self.intact() && packet == self,
                Err(_) => !self.intact(),
            },
    {
        if self.compute_checksum() == self.checksum {
            Ok(self)
        } else {
            Err(())
        }
    }

    /// Reads the frame at the start of `buffer`; what follows the frame is not
    /// looked at. The checksum is taken as it stands: whether it belongs to
    /// the other fields is for [`Packet::validate`] to say.
    pub fn read_bytes(buffer: &[u8]) -> (result: Result<Packet, PacketError>)
        ensures
            match result {
                Ok(packet) => {
                    &&& framed(buffer@)
                    &&& packet.parsed_from(buffer@)
                    &&& packet.well_formed()
                    &&& packet.wire() == buffer@.take(packet.length + OVERHEAD)
                },
                Err(error) => error == PacketError::Framing && !framed(buffer@),
            },
    {
        if buffer.len() < 4 {
            return Err(PacketError::Framing);
        }
        if buffer[0] != (SYNC % 256) as u8 || buffer[1] != (SYNC / 256) as u8 {
            return Err(PacketError::Framing);
        }
        let count: usize = buffer[3] as usize;
        if buffer.len() < count + OVERHEAD {
            return Err(PacketError::Framing);
        }
        let mut payload: [u8; 255] = [0u8; 255];
        let mut done: usize = 0;
        while done < count
            invariant
                done <= count <= MAX_PAYLOAD,
                buffer@.len() >= count + OVERHEAD,
                forall|k: int| 0 <= k < done ==> payload@[k] == buffer@[4 + k],
                forall|k: int| done <= k < MAX_PAYLOAD ==> payload@[k] == 0,
            decreases count - done,
        {
            payload[done] = buffer[4 + done];
            done += 1;
        }
        let low: u16 = buffer[4 + count] as u16;
        let high: u16 = buffer[5 + count] as u16;
        let packet = Packet {
            sync: SYNC,
            command: buffer[2],
            length: buffer[3],
            payload: Some(payload),
            checksum: low + 256 * high,
        };
        assert(payload@ =~= buffer@.subrange(4, 4 + count) + zeros((MAX_PAYLOAD - count) as nat));
        assert(packet.wire() =~= buffer@.take(packet.length + OVERHEAD));
        Ok(packet)
    }
}

} // verus!
