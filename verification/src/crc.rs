//! The 16-bit cyclic redundancy check that guards frames and encrypted
//! messages: polynomial `0x8005`, register preset to `0xFFFF`, most significant
//! bit first, nothing reflected, no final inversion.

use vstd::prelude::*;

verus! {

/// Preset of the checksum register.
pub const CRC_SEED: u16 = 0xFFFF;

/// Generator polynomial, without its leading term.
pub const CRC_POLY: u16 = 0x8005;

/// The register after one bit has been shifted out.
pub open spec fn crc16_shift(crc: u16) -> u16 {
    if crc & 0x8000 != 0 {
        (crc << 1) ^ CRC_POLY
    } else {
        crc << 1
    }
}

/// The register after `n` bits have been shifted out.
pub open spec fn crc16_shifts(crc: u16, n: nat) -> u16
    decreases n,
{
    if n == 0 {
        crc
    } else {
        crc16_shift(crc16_shifts(crc, (n - 1) as nat))
    }
}

/// The register after one more message byte.
pub open spec fn crc16_update(crc: u16, byte: u8) -> u16 {
    crc16_shifts(crc ^ ((byte as u16) << 8), 8)
}

/// The checksum of a message: the register after every byte, first to last.
pub open spec fn spec_crc16(data: Seq<u8>) -> u16
    decreases data.len(),
{
    if data.len() == 0 {
        CRC_SEED
    } else {
        crc16_update(spec_crc16(data.drop_last()), data.last())
    }
}

/// Feeds one byte into the register.
pub fn crc16_byte(crc: u16, byte: u8) -> (next: u16)
    ensures
        next == crc16_update(crc, byte),
{
    let mut reg: u16 = crc ^ ((byte as u16) << 8);
    let mut bit: usize = 0;
    while bit < 8
        invariant
            bit <= 8,
            reg == crc16_shifts(crc ^ ((byte as u16) << 8), bit as nat),
        decreases 8 - bit,
    {
        if reg & 0x8000 != 0 {
            reg = (reg << 1) ^ CRC_POLY;
        } else {
            reg = reg << 1;
        }
        bit += 1;
    }
    reg
}

/// Computes the checksum of `data`.
pub fn crc16(data: &[u8]) -> (crc: u16)
    ensures
        crc == spec_crc16(data@),
{
    let mut crc: u16 = CRC_SEED;
    let mut i: usize = 0;
    while i < data.len()
        invariant
            i <= data.len(),
            crc == spec_crc16(data@.take(i as int)),
        decreases data.len() - i,
    {
        assert(data@.take(i + 1).drop_last() == data@.take(i as int));
        crc = crc16_byte(crc, data[i]);
        i += 1;
    }
    assert(data@.take(data.len() as int) == data@);
    crc
}

} // verus!
