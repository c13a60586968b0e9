//! CRC-16/MODBUS: the integrity code that closes every frame.
//!
//! The code is defined here one bit at a time. The packet functions leave the
//! computation to the `crc16` crate, whose agreement with the definition is
//! taken on trust; [`bit_by_bit`] is the definition made executable, proved
//! against it and kept to test that trust.

use crc16::{State, MODBUS};
use vstd::prelude::*;

verus! {

/// The generator polynomial x^16 + x^15 + x^2 + 1 (0x8005) with its bits
/// reversed, as a register that shifts towards the low end uses it.
pub const POLYNOMIAL: u16 = 0xA001;

/// The value of the register before the first byte.
pub const INITIAL: u16 = 0xFFFF;

/// The register after one bit has left it at the low end: where that bit was
/// set, the polynomial is folded in.
pub open spec fn shift_bit(register: u16) -> u16 {
    if register & 1 == 1 {
        (register >> 1) ^ POLYNOMIAL
    } else {
        register >> 1
    }
}

/// The register after `bits` bits have left it.
pub open spec fn shift_bits(register: u16, bits: nat) -> u16
    decreases bits,
{
    if bits == 0 {
        register
    } else {
        shift_bit(shift_bits(register, (bits - 1) as nat))
    }
}

/// The register after one byte of input: the byte is folded into the low half,
/// then eight bits leave.
pub open spec fn absorb(register: u16, byte: u8) -> u16 {
    shift_bits(register ^ (byte as u16), 8)
}

/// The register after a run of input bytes, taken first to last.
pub open spec fn absorb_all(register: u16, bytes: Seq<u8>) -> u16
    decreases bytes.len(),
{
    if bytes.len() == 0 {
        register
    } else {
        absorb(absorb_all(register, bytes.drop_last()), bytes.last())
    }
}

/// The CRC-16/MODBUS of `bytes`: reflected input and output, register
/// starting at 0xFFFF, nothing folded into the final value.
pub open spec fn crc16_modbus(bytes: Seq<u8>) -> u16 {
    absorb_all(INITIAL, bytes)
}

/// Computes the CRC-16/MODBUS of `bytes` with `crc16::State::<MODBUS>::calculate`.
///
/// Trusted, not proved: that the crate's `MODBUS` variant, which it documents
/// as `poly=0x8005 init=0xffff refin=true refout=true xorout=0x0000`, returns
/// for every input the value that [`crc16_modbus`] defines. The crate reaches
/// it through a lookup table; the definition above is the same code one bit at
/// a time.
#[verifier::external_body]
pub(crate) fn modbus(bytes: &[u8]) -> (crc: u16)
    ensures
        crc == crc16_modbus(bytes@),
{
    State::<MODBUS>::calculate(bytes)
}

/// Computes the CRC-16/MODBUS of `bytes` by the definition: slow, and proved.
pub fn bit_by_bit(bytes: &[u8]) -> (crc: u16)
    ensures
        crc == crc16_modbus(bytes@),
{
    let mut register: u16 = INITIAL;
    let mut done: usize = 0;
    while done < bytes.len()
        invariant
            done <= bytes@.len(),
            register == absorb_all(INITIAL, bytes@.take(done as int)),
        decreases bytes@.len() - done,
    {
        let byte: u8 = bytes[done];
        let ghost entered = register ^ (byte as u16);
        register = register ^ (byte as u16);
        let mut bits: u8 = 0;
        while bits < 8
            invariant
                bits <= 8,
                register == shift_bits(entered, bits as nat),
            decreases 8 - bits,
        {
            register = if register & 1 == 1 {
                (register >> 1) ^ POLYNOMIAL
            } else {
                register >> 1
            };
            bits += 1;
        }
        assert(bytes@.take(done + 1).drop_last() =~= bytes@.take(done as int));
        done += 1;
    }
    assert(bytes@.take(done as int) =~= bytes@);
    register
}

} // verus!
