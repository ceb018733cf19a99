//! The MPEG-2 CRC32 that closes every table section.

use vstd::prelude::*;

verus! {

/// One step of the MPEG-2 CRC register: shift left by one bit and fold the
/// generator polynomial `0x04C11DB7` in when the bit shifted out was set.
pub open spec fn crc_shift(crc: u32) -> u32 {
    if crc & 0x8000_0000u32 != 0 {
        (crc << 1u32) ^ 0x04C1_1DB7u32
    } else {
        crc << 1u32
    }
}

/// `n` steps of the CRC register.
pub open spec fn crc_shifts(crc: u32, n: nat) -> u32
    decreases n,
{
    if n == 0 {
        crc
    } else {
        crc_shift(crc_shifts(crc, (n - 1) as nat))
    }
}

/// The CRC register after one more byte of input, most significant bit first.
pub open spec fn crc_update(crc: u32, b: u8) -> u32 {
    crc_shifts(crc ^ ((b as u32) << 24u32), 8)
}

/// MPEG-2 CRC32 of `data`: register preset to all ones, no reflection, no
/// final inversion.
pub open spec fn crc32_mpeg(data: Seq<u8>) -> u32
    decreases data.len(),
{
    if data.len() == 0 {
        0xFFFF_FFFFu32
    } else {
        crc_update(crc32_mpeg(data.drop_last()), data.last())
    }
}

/// Computes the MPEG-2 CRC32 of `data`.
pub fn mpeg_crc32(data: &[u8]) -> (crc: u32)
    ensures
        crc == crc32_mpeg(data@),
{
    let mut crc: u32 = 0xFFFF_FFFF;
    let mut i: usize = 0;
    while i < data.len()
        invariant
            i <= data@.len(),
            crc == crc32_mpeg(data@.take(i as int)),
        decreases data@.len() - i,
    {
        let start: u32 = crc ^ ((data[i] as u32) << 24);
        let mut reg: u32 = start;
        let mut k: u8 = 0;
        while k < 8
            invariant
                k <= 8,
                reg == crc_shifts(start, k as nat),
            decreases 8 - k,
        {
            if (reg & 0x8000_0000) != 0 {
                reg = (reg << 1) ^ 0x04C1_1DB7;
            } else {
                reg = reg << 1;
            }
            k += 1;
        }
        proof {
            assert(data@.take(i + 1).drop_last() =~= data@.take(i as int));
        }
        crc = reg;
        i += 1;
    }
    proof {
        assert(data@.take(i as int) =~= data@);
    }
    crc
}

} // verus!
