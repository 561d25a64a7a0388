//! The measurement frame: the raw 7-byte reading, its checksum engine, and
//! the packed bit-field extraction.
//!
//! The checksum is CRC-8 with polynomial 0x31 (MAXIM variant: non-reflected
//! input and output, initial value 0xFF, no final XOR), computed over exactly
//! the first six bytes of the frame; the seventh byte carries the checksum
//! the sensor computed. The executable code is accelerated by a precomputed
//! 256-entry lookup table, proved below to agree with the bit-level
//! polynomial definition.

use vstd::prelude::*;

verus! {

/// Starting value of the checksum shift register.
pub const INITIAL_CRC_VAL: u8 = 0xFF;

/// Index of the received-checksum byte within the 7-byte frame.
pub const CRC_INDEX: usize = 6;

const CRC8_MAXIM_LUT: [u8; 256] = [
    0x00, 0x31, 0x62, 0x53, 0xC4, 0xF5, 0xA6, 0x97, 0xB9, 0x88, 0xDB, 0xEA, 0x7D, 0x4C, 0x1F, 0x2E,
    0x43, 0x72, 0x21, 0x10, 0x87, 0xB6, 0xE5, 0xD4, 0xFA, 0xCB, 0x98, 0xA9, 0x3E, 0x0F, 0x5C, 0x6D,
    0x86, 0xB7, 0xE4, 0xD5, 0x42, 0x73, 0x20, 0x11, 0x3F, 0x0E, 0x5D, 0x6C, 0xFB, 0xCA, 0x99, 0xA8,
    0xC5, 0xF4, 0xA7, 0x96, 0x01, 0x30, 0x63, 0x52, 0x7C, 0x4D, 0x1E, 0x2F, 0xB8, 0x89, 0xDA, 0xEB,
    0x3D, 0x0C, 0x5F, 0x6E, 0xF9, 0xC8, 0x9B, 0xAA, 0x84, 0xB5, 0xE6, 0xD7, 0x40, 0x71, 0x22, 0x13,
    0x7E, 0x4F, 0x1C, 0x2D, 0xBA, 0x8B, 0xD8, 0xE9, 0xC7, 0xF6, 0xA5, 0x94, 0x03, 0x32, 0x61, 0x50,
    0xBB, 0x8A, 0xD9, 0xE8, 0x7F, 0x4E, 0x1D, 0x2C, 0x02, 0x33, 0x60, 0x51, 0xC6, 0xF7, 0xA4, 0x95,
    0xF8, 0xC9, 0x9A, 0xAB, 0x3C, 0x0D, 0x5E, 0x6F, 0x41, 0x70, 0x23, 0x12, 0x85, 0xB4, 0xE7, 0xD6,
    0x7A, 0x4B, 0x18, 0x29, 0xBE, 0x8F, 0xDC, 0xED, 0xC3, 0xF2, 0xA1, 0x90, 0x07, 0x36, 0x65, 0x54,
    0x39, 0x08, 0x5B, 0x6A, 0xFD, 0xCC, 0x9F, 0xAE, 0x80, 0xB1, 0xE2, 0xD3, 0x44, 0x75, 0x26, 0x17,
    0xFC, 0xCD, 0x9E, 0xAF, 0x38, 0x09, 0x5A, 0x6B, 0x45, 0x74, 0x27, 0x16, 0x81, 0xB0, 0xE3, 0xD2,
    0xBF, 0x8E, 0xDD, 0xEC, 0x7B, 0x4A, 0x19, 0x28, 0x06, 0x37, 0x64, 0x55, 0xC2, 0xF3, 0xA0, 0x91,
    0x47, 0x76, 0x25, 0x14, 0x83, 0xB2, 0xE1, 0xD0, 0xFE, 0xCF, 0x9C, 0xAD, 0x3A, 0x0B, 0x58, 0x69,
    0x04, 0x35, 0x66, 0x57, 0xC0, 0xF1, 0xA2, 0x93, 0xBD, 0x8C, 0xDF, 0xEE, 0x79, 0x48, 0x1B, 0x2A,
    0xC1, 0xF0, 0xA3, 0x92, 0x05, 0x34, 0x67, 0x56, 0x78, 0x49, 0x1A, 0x2B, 0xBC, 0x8D, 0xDE, 0xEF,
    0x82, 0xB3, 0xE0, 0xD1, 0x46, 0x77, 0x24, 0x15, 0x3B, 0x0A, 0x59, 0x68, 0xFF, 0xCE, 0x9D, 0xAC,
];

/// One round of the polynomial shift register: shift left, folding the
/// polynomial 0x31 back in when the top bit falls out.
pub open spec fn crc8_round(x: u8) -> u8 {
    if (x & 0x80) != 0 {
        (x << 1) ^ 0x31
    } else {
        x << 1
    }
}

/// Eight polynomial rounds: how a byte already folded into the shift
/// register feeds through it.
pub open spec fn crc8_byte(x: u8) -> u8 {
    crc8_round(crc8_round(crc8_round(crc8_round(
        crc8_round(crc8_round(crc8_round(crc8_round(x)))),
    ))))
}

/// Folding one input byte into the running checksum.
pub open spec fn crc8_update(crc: u8, byte: u8) -> u8 {
    crc8_byte(crc ^ byte)
}

/// The checksum of the first `n` bytes of `s`, starting from 0xFF.
pub open spec fn crc8_of_prefix(s: Seq<u8>, n: int) -> u8
    recommends
        n <= s.len(),
    decreases n,
{
    if n <= 0 {
        INITIAL_CRC_VAL
    } else {
        crc8_update(crc8_of_prefix(s, n - 1), s[n - 1])
    }
}

/// The checksum of a whole byte sequence.
pub open spec fn crc8_of(s: Seq<u8>) -> u8 {
    crc8_of_prefix(s, s.len() as int)
}

/// The received checksum in byte 6 matches the checksum computed over
/// bytes 0 through 5.
pub open spec fn spec_crc_good(bytes: Seq<u8>) -> bool
    recommends
        bytes.len() == 7,
{
    crc8_of(bytes.take(CRC_INDEX as int)) == bytes[CRC_INDEX as int]
}

/// The value packed into the upper 20 bits of bytes 1..4: the humidity field.
pub open spec fn spec_humidity_bits(bytes: Seq<u8>) -> u32
    recommends
        bytes.len() == 7,
{
    (((bytes[1] as u32) << 12) | ((bytes[2] as u32) << 4)) | ((bytes[3] as u32) >> 4)
}

/// The value packed into the lower 20 bits of bytes 3..6: the temperature
/// field.
pub open spec fn spec_temperature_bits(bytes: Seq<u8>) -> u32
    recommends
        bytes.len() == 7,
{
    ((((bytes[3] & 0x0F) as u32) << 16) | ((bytes[4] as u32) << 8)) | (bytes[5] as u32)
}

/// Every entry of the lookup table equals the eight polynomial rounds
/// applied to its index, so a table lookup computes `crc8_update`.
#[verifier::rlimit(100)]
#[verifier::spinoff_prover]
proof fn lemma_lut_matches_rounds()
    ensures
        forall|i: int| 0 <= i < 256 ==> #[trigger] CRC8_MAXIM_LUT@[i] == crc8_byte(i as u8),
{
    assert(crc8_byte(0x00) == 0x00
        && crc8_byte(0x01) == 0x31
        && crc8_byte(0x02) == 0x62
        && crc8_byte(0x03) == 0x53
        && crc8_byte(0x04) == 0xC4
        && crc8_byte(0x05) == 0xF5
        && crc8_byte(0x06) == 0xA6
        && crc8_byte(0x07) == 0x97
        && crc8_byte(0x08) == 0xB9
        && crc8_byte(0x09) == 0x88
        && crc8_byte(0x0A) == 0xDB
        && crc8_byte(0x0B) == 0xEA
        && crc8_byte(0x0C) == 0x7D
        && crc8_byte(0x0D) == 0x4C
        && crc8_byte(0x0E) == 0x1F
        && crc8_byte(0x0F) == 0x2E
        && crc8_byte(0x10) == 0x43
        && crc8_byte(0x11) == 0x72
        && crc8_byte(0x12) == 0x21
        && crc8_byte(0x13) == 0x10
        && crc8_byte(0x14) == 0x87
        && crc8_byte(0x15) == 0xB6
        && crc8_byte(0x16) == 0xE5
        && crc8_byte(0x17) == 0xD4
        && crc8_byte(0x18) == 0xFA
        && crc8_byte(0x19) == 0xCB
        && crc8_byte(0x1A) == 0x98
        && crc8_byte(0x1B) == 0xA9
        && crc8_byte(0x1C) == 0x3E
        && crc8_byte(0x1D) == 0x0F
        && crc8_byte(0x1E) == 0x5C
        && crc8_byte(0x1F) == 0x6D) by (bit_vector);
    assert(crc8_byte(0x20) == 0x86
        && crc8_byte(0x21) == 0xB7
        && crc8_byte(0x22) == 0xE4
        && crc8_byte(0x23) == 0xD5
        && crc8_byte(0x24) == 0x42
        && crc8_byte(0x25) == 0x73
        && crc8_byte(0x26) == 0x20
        && crc8_byte(0x27) == 0x11
        && crc8_byte(0x28) == 0x3F
        && crc8_byte(0x29) == 0x0E
        && crc8_byte(0x2A) == 0x5D
        && crc8_byte(0x2B) == 0x6C
        && crc8_byte(0x2C) == 0xFB
        && crc8_byte(0x2D) == 0xCA
        && crc8_byte(0x2E) == 0x99
        && crc8_byte(0x2F) == 0xA8
        && crc8_byte(0x30) == 0xC5
        && crc8_byte(0x31) == 0xF4
        && crc8_byte(0x32) == 0xA7
        && crc8_byte(0x33) == 0x96
        && crc8_byte(0x34) == 0x01
        && crc8_byte(0x35) == 0x30
        && crc8_byte(0x36) == 0x63
        && crc8_byte(0x37) == 0x52
        && crc8_byte(0x38) == 0x7C
        && crc8_byte(0x39) == 0x4D
        && crc8_byte(0x3A) == 0x1E
        && crc8_byte(0x3B) == 0x2F
        && crc8_byte(0x3C) == 0xB8
        && crc8_byte(0x3D) == 0x89
        && crc8_byte(0x3E) == 0xDA
        && crc8_byte(0x3F) == 0xEB) by (bit_vector);
    assert(crc8_byte(0x40) == 0x3D
        && crc8_byte(0x41) == 0x0C
        && crc8_byte(0x42) == 0x5F
        && crc8_byte(0x43) == 0x6E
        && crc8_byte(0x44) == 0xF9
        && crc8_byte(0x45) == 0xC8
        && crc8_byte(0x46) == 0x9B
        && crc8_byte(0x47) == 0xAA
        && crc8_byte(0x48) == 0x84
        && crc8_byte(0x49) == 0xB5
        && crc8_byte(0x4A) == 0xE6
        && crc8_byte(0x4B) == 0xD7
        && crc8_byte(0x4C) == 0x40
        && crc8_byte(0x4D) == 0x71
        && crc8_byte(0x4E) == 0x22
        && crc8_byte(0x4F) == 0x13
        && crc8_byte(0x50) == 0x7E
        && crc8_byte(0x51) == 0x4F
        && crc8_byte(0x52) == 0x1C
        && crc8_byte(0x53) == 0x2D
        && crc8_byte(0x54) == 0xBA
        && crc8_byte(0x55) == 0x8B
        && crc8_byte(0x56) == 0xD8
        && crc8_byte(0x57) == 0xE9
        && crc8_byte(0x58) == 0xC7
        && crc8_byte(0x59) == 0xF6
        && crc8_byte(0x5A) == 0xA5
        && crc8_byte(0x5B) == 0x94
        && crc8_byte(0x5C) == 0x03
        && crc8_byte(0x5D) == 0x32
        && crc8_byte(0x5E) == 0x61
        && crc8_byte(0x5F) == 0x50) by (bit_vector);
    assert(crc8_byte(0x60) == 0xBB
        && crc8_byte(0x61) == 0x8A
        && crc8_byte(0x62) == 0xD9
        && crc8_byte(0x63) == 0xE8
        && crc8_byte(0x64) == 0x7F
        && crc8_byte(0x65) == 0x4E
        && crc8_byte(0x66) == 0x1D
        && crc8_byte(0x67) == 0x2C
        && crc8_byte(0x68) == 0x02
        && crc8_byte(0x69) == 0x33
        && crc8_byte(0x6A) == 0x60
        && crc8_byte(0x6B) == 0x51
        && crc8_byte(0x6C) == 0xC6
        && crc8_byte(0x6D) == 0xF7
        && crc8_byte(0x6E) == 0xA4
        && crc8_byte(0x6F) == 0x95
        && crc8_byte(0x70) == 0xF8
        && crc8_byte(0x71) == 0xC9
        && crc8_byte(0x72) == 0x9A
        && crc8_byte(0x73) == 0xAB
        && crc8_byte(0x74) == 0x3C
        && crc8_byte(0x75) == 0x0D
        && crc8_byte(0x76) == 0x5E
        && crc8_byte(0x77) == 0x6F
        && crc8_byte(0x78) == 0x41
        && crc8_byte(0x79) == 0x70
        && crc8_byte(0x7A) == 0x23
        && crc8_byte(0x7B) == 0x12
        && crc8_byte(0x7C) == 0x85
        && crc8_byte(0x7D) == 0xB4
        && crc8_byte(0x7E) == 0xE7
        && crc8_byte(0x7F) == 0xD6) by (bit_vector);
    assert(crc8_byte(0x80) == 0x7A
        && crc8_byte(0x81) == 0x4B
        && crc8_byte(0x82) == 0x18
        && crc8_byte(0x83) == 0x29
        && crc8_byte(0x84) == 0xBE
        && crc8_byte(0x85) == 0x8F
        && crc8_byte(0x86) == 0xDC
        && crc8_byte(0x87) == 0xED
        && crc8_byte(0x88) == 0xC3
        && crc8_byte(0x89) == 0xF2
        && crc8_byte(0x8A) == 0xA1
        && crc8_byte(0x8B) == 0x90
        && crc8_byte(0x8C) == 0x07
        && crc8_byte(0x8D) == 0x36
        && crc8_byte(0x8E) == 0x65
        && crc8_byte(0x8F) == 0x54
        && crc8_byte(0x90) == 0x39
        && crc8_byte(0x91) == 0x08
        && crc8_byte(0x92) == 0x5B
        && crc8_byte(0x93) == 0x6A
        && crc8_byte(0x94) == 0xFD
        && crc8_byte(0x95) == 0xCC
        && crc8_byte(0x96) == 0x9F
        && crc8_byte(0x97) == 0xAE
        && crc8_byte(0x98) == 0x80
        && crc8_byte(0x99) == 0xB1
        && crc8_byte(0x9A) == 0xE2
        && crc8_byte(0x9B) == 0xD3
        && crc8_byte(0x9C) == 0x44
        && crc8_byte(0x9D) == 0x75
        && crc8_byte(0x9E) == 0x26
        && crc8_byte(0x9F) == 0x17) by (bit_vector);
    assert(crc8_byte(0xA0) == 0xFC
        && crc8_byte(0xA1) == 0xCD
        && crc8_byte(0xA2) == 0x9E
        && crc8_byte(0xA3) == 0xAF
        && crc8_byte(0xA4) == 0x38
        && crc8_byte(0xA5) == 0x09
        && crc8_byte(0xA6) == 0x5A
        && crc8_byte(0xA7) == 0x6B
        && crc8_byte(0xA8) == 0x45
        && crc8_byte(0xA9) == 0x74
        && crc8_byte(0xAA) == 0x27
        && crc8_byte(0xAB) == 0x16
        && crc8_byte(0xAC) == 0x81
        && crc8_byte(0xAD) == 0xB0
        && crc8_byte(0xAE) == 0xE3
        && crc8_byte(0xAF) == 0xD2
        && crc8_byte(0xB0) == 0xBF
        && crc8_byte(0xB1) == 0x8E
        && crc8_byte(0xB2) == 0xDD
        && crc8_byte(0xB3) == 0xEC
        && crc8_byte(0xB4) == 0x7B
        && crc8_byte(0xB5) == 0x4A
        && crc8_byte(0xB6) == 0x19
        && crc8_byte(0xB7) == 0x28
        && crc8_byte(0xB8) == 0x06
        && crc8_byte(0xB9) == 0x37
        && crc8_byte(0xBA) == 0x64
        && crc8_byte(0xBB) == 0x55
        && crc8_byte(0xBC) == 0xC2
        && crc8_byte(0xBD) == 0xF3
        && crc8_byte(0xBE) == 0xA0
        && crc8_byte(0xBF) == 0x91) by (bit_vector);
    assert(crc8_byte(0xC0) == 0x47
        && crc8_byte(0xC1) == 0x76
        && crc8_byte(0xC2) == 0x25
        && crc8_byte(0xC3) == 0x14
        && crc8_byte(0xC4) == 0x83
        && crc8_byte(0xC5) == 0xB2
        && crc8_byte(0xC6) == 0xE1
        && crc8_byte(0xC7) == 0xD0
        && crc8_byte(0xC8) == 0xFE
        && crc8_byte(0xC9) == 0xCF
        && crc8_byte(0xCA) == 0x9C
        && crc8_byte(0xCB) == 0xAD
        && crc8_byte(0xCC) == 0x3A
        && crc8_byte(0xCD) == 0x0B
        && crc8_byte(0xCE) == 0x58
        && crc8_byte(0xCF) == 0x69
        && crc8_byte(0xD0) == 0x04
        && crc8_byte(0xD1) == 0x35
        && crc8_byte(0xD2) == 0x66
        && crc8_byte(0xD3) == 0x57
        && crc8_byte(0xD4) == 0xC0
        && crc8_byte(0xD5) == 0xF1
        && crc8_byte(0xD6) == 0xA2
        && crc8_byte(0xD7) == 0x93
        && crc8_byte(0xD8) == 0xBD
        && crc8_byte(0xD9) == 0x8C
        && crc8_byte(0xDA) == 0xDF
        && crc8_byte(0xDB) == 0xEE
        && crc8_byte(0xDC) == 0x79
        && crc8_byte(0xDD) == 0x48
        && crc8_byte(0xDE) == 0x1B
        && crc8_byte(0xDF) == 0x2A) by (bit_vector);
    assert(crc8_byte(0xE0) == 0xC1
        && crc8_byte(0xE1) == 0xF0
        && crc8_byte(0xE2) == 0xA3
        && crc8_byte(0xE3) == 0x92
        && crc8_byte(0xE4) == 0x05
        && crc8_byte(0xE5) == 0x34
        && crc8_byte(0xE6) == 0x67
        && crc8_byte(0xE7) == 0x56
        && crc8_byte(0xE8) == 0x78
        && crc8_byte(0xE9) == 0x49
        && crc8_byte(0xEA) == 0x1A
        && crc8_byte(0xEB) == 0x2B
        && crc8_byte(0xEC) == 0xBC
        && crc8_byte(0xED) == 0x8D
        && crc8_byte(0xEE) == 0xDE
        && crc8_byte(0xEF) == 0xEF
        && crc8_byte(0xF0) == 0x82
        && crc8_byte(0xF1) == 0xB3
        && crc8_byte(0xF2) == 0xE0
        && crc8_byte(0xF3) == 0xD1
        && crc8_byte(0xF4) == 0x46
        && crc8_byte(0xF5) == 0x77
        && crc8_byte(0xF6) == 0x24
        && crc8_byte(0xF7) == 0x15
        && crc8_byte(0xF8) == 0x3B
        && crc8_byte(0xF9) == 0x0A
        && crc8_byte(0xFA) == 0x59
        && crc8_byte(0xFB) == 0x68
        && crc8_byte(0xFC) == 0xFF
        && crc8_byte(0xFD) == 0xCE
        && crc8_byte(0xFE) == 0x9D
        && crc8_byte(0xFF) == 0xAC) by (bit_vector);
    assert forall|i: int| 0 <= i < 256 implies #[trigger] CRC8_MAXIM_LUT@[i] == crc8_byte(
        i as u8,
    ) by {
        assert(CRC8_MAXIM_LUT@[i] == crc8_byte(i as u8));
    }
}

/// Holds one raw 7-byte reading and the locally computed checksum, and
/// implements the checksum engine and the bit-field extraction.
pub struct SensorData {
    pub bytes: [u8; 7],
    pub crc: u8,
}

impl SensorData {
    /// A fresh all-zero frame with no checksum computed yet.
    pub fn new() -> (s: SensorData)
        ensures
            s.bytes@ == seq![0u8, 0u8, 0u8, 0u8, 0u8, 0u8, 0u8],
            s.crc == 0,
    {
        let s = SensorData { bytes: [0u8, 0u8, 0u8, 0u8, 0u8, 0u8, 0u8], crc: 0x00 };
        proof {
            assert(s.bytes@ =~= seq![0u8, 0u8, 0u8, 0u8, 0u8, 0u8, 0u8]);
        }
        s
    }

    /// Recomputes the checksum over bytes 0..6 and compares it against the
    /// received checksum in byte 6; true only on exact equality.
    pub fn is_crc_good(&mut self) -> (r: bool)
        ensures
            final(self).bytes == old(self).bytes,
            final(self).crc == crc8_of(old(self).bytes@.take(CRC_INDEX as int)),
            r == spec_crc_good(old(self).bytes@),
    {
        self.crc_8_maxim();
        self.crc == self.bytes[CRC_INDEX]
    }

    /// Computes the CRC-8/MAXIM checksum of bytes 0..6 into `self.crc`,
    /// one table lookup per byte.
    pub fn crc_8_maxim(&mut self)
        ensures
            final(self).bytes == old(self).bytes,
            final(self).crc == crc8_of(old(self).bytes@.take(CRC_INDEX as int)),
    {
        let mut crc: u8 = INITIAL_CRC_VAL;
        let mut i: usize = 0;
        while i < CRC_INDEX
            invariant
                i <= CRC_INDEX,
                self.bytes == old(self).bytes,
                self.crc == old(self).crc,
                crc == crc8_of_prefix(self.bytes@, i as int),
            decreases CRC_INDEX - i,
        {
            let index = (crc ^ self.bytes[i]) as usize;
            proof {
                lemma_lut_matches_rounds();
                let b = self.bytes@[i as int];
                assert(index < 256 && index as u8 == crc ^ b) by (bit_vector)
                    requires
                        index == (crc ^ b) as usize,
                ;
            }
            crc = CRC8_MAXIM_LUT[index];
            i += 1;
        }
        proof {
            lemma_crc8_take_prefix(self.bytes@, CRC_INDEX as int);
        }
        self.crc = crc;
    }

    /// Zeroes the frame in place, keeping the computed checksum field.
    pub fn clear_bytes(&mut self)
        ensures
            final(self).bytes@ == seq![0u8, 0u8, 0u8, 0u8, 0u8, 0u8, 0u8],
            final(self).crc == old(self).crc,
    {
        let mut i: usize = 0;
        while i < 7
            invariant
                i <= 7,
                self.crc == old(self).crc,
                forall|j: int| 0 <= j < i ==> self.bytes@[j] == 0,
            decreases 7 - i,
        {
            self.bytes[i] = 0x00;
            i += 1;
        }
        proof {
            assert(self.bytes@ =~= seq![0u8, 0u8, 0u8, 0u8, 0u8, 0u8, 0u8]);
        }
    }

    /// Assembles the 20-bit humidity field from bytes 1..4 (byte 3 split).
    pub fn get_humidity_bits(&self) -> (r: u32)
        ensures
            r == spec_humidity_bits(self.bytes@),
            r < 0x100000,
    {
        let mut h: u32 = (self.bytes[1] as u32) << 12u32;
        h |= (self.bytes[2] as u32) << 4u32;
        h |= (self.bytes[3] as u32) >> 4u32;
        proof {
            let b1 = self.bytes@[1];
            let b2 = self.bytes@[2];
            let b3 = self.bytes@[3];
            assert(((((b1 as u32) << 12u32) | ((b2 as u32) << 4u32)) | ((b3 as u32) >> 4u32))
                < 0x100000) by (bit_vector);
        }
        h
    }

    /// Assembles the 20-bit temperature field from bytes 3..6 (byte 3 split).
    pub fn get_temperature_bits(&self) -> (r: u32)
        ensures
            r == spec_temperature_bits(self.bytes@),
            r < 0x100000,
    {
        let mut t: u32 = ((self.bytes[3] & 0x0F) as u32) << 16u32;
        t |= (self.bytes[4] as u32) << 8u32;
        t |= self.bytes[5] as u32;
        proof {
            let b3 = self.bytes@[3];
            let b4 = self.bytes@[4];
            let b5 = self.bytes@[5];
            assert((((((b3 & 0x0F) as u32) << 16u32) | ((b4 as u32) << 8u32)) | (b5 as u32))
                < 0x100000) by (bit_vector);
        }
        t
    }
}

/// Checksums of equal prefixes agree: the checksum of the first `n` bytes
/// reads nothing beyond them.
proof fn lemma_crc8_prefix_congruence(s1: Seq<u8>, s2: Seq<u8>, n: int)
    requires
        0 <= n <= s1.len(),
        n <= s2.len(),
        forall|j: int| 0 <= j < n ==> s1[j] == s2[j],
    ensures
        crc8_of_prefix(s1, n) == crc8_of_prefix(s2, n),
    decreases n,
{
    if n > 0 {
        lemma_crc8_prefix_congruence(s1, s2, n - 1);
    }
}

/// The checksum of `s.take(n)` is the checksum of the first `n` bytes of `s`.
proof fn lemma_crc8_take_prefix(s: Seq<u8>, n: int)
    requires
        0 <= n <= s.len(),
    ensures
        crc8_of(s.take(n)) == crc8_of_prefix(s, n),
{
    lemma_crc8_prefix_congruence(s.take(n), s, n);
}

/// Folding a byte into the checksum is injective in the XOR of its inputs.
proof fn lemma_crc8_update_injective(c1: u8, c2: u8, b1: u8, b2: u8)
    requires
        crc8_update(c1, b1) == crc8_update(c2, b2),
    ensures
        c1 ^ b1 == c2 ^ b2,
{
    assert(crc8_byte(c1 ^ b1) == crc8_byte(c2 ^ b2) ==> c1 ^ b1 == c2 ^ b2) by (bit_vector);
}

/// Checksums of two sequences that agree everywhere below `n` except in one
/// byte differ.
proof fn lemma_crc8_prefix_diverges(s1: Seq<u8>, s2: Seq<u8>, k: int, n: int)
    requires
        0 <= k < n <= s1.len(),
        n <= s2.len(),
        forall|j: int| 0 <= j < n && j != k ==> s1[j] == s2[j],
        s1[k] != s2[k],
    ensures
        crc8_of_prefix(s1, n) != crc8_of_prefix(s2, n),
    decreases n,
{
    if n == k + 1 {
        lemma_crc8_prefix_congruence(s1, s2, k);
        let c = crc8_of_prefix(s1, k);
        if crc8_update(c, s1[k]) == crc8_update(c, s2[k]) {
            lemma_crc8_update_injective(c, c, s1[k], s2[k]);
            let x1 = s1[k];
            let x2 = s2[k];
            assert(c ^ x1 == c ^ x2 ==> x1 == x2) by (bit_vector);
        }
    } else {
        lemma_crc8_prefix_diverges(s1, s2, k, n - 1);
        let c1 = crc8_of_prefix(s1, n - 1);
        let c2 = crc8_of_prefix(s2, n - 1);
        if crc8_update(c1, s1[n - 1]) == crc8_update(c2, s2[n - 1]) {
            lemma_crc8_update_injective(c1, c2, s1[n - 1], s2[n - 1]);
            let b = s1[n - 1];
            assert(c1 ^ b == c2 ^ b ==> c1 == c2) by (bit_vector);
        }
    }
}

/// The checksum is a pure function of the byte sequence: equal inputs give
/// equal checksums, on every call.
pub proof fn lemma_checksum_deterministic(bytes1: Seq<u8>, bytes2: Seq<u8>)
    requires
        bytes1 == bytes2,
    ensures
        crc8_of(bytes1) == crc8_of(bytes2),
{
}

/// Checksum round trip: a frame whose byte 6 equals the checksum computed
/// over its bytes 0..6 verifies as good.
pub proof fn lemma_checksum_round_trip(frame: Seq<u8>)
    requires
        frame.len() == 7,
        frame[CRC_INDEX as int] == crc8_of(frame.take(CRC_INDEX as int)),
    ensures
        spec_crc_good(frame),
{
}

/// Corruption detection: changing any one of bytes 0..6 of a good frame,
/// without recomputing byte 6, makes verification fail.
pub proof fn lemma_checksum_detects_corruption(frame: Seq<u8>, corrupted: Seq<u8>, k: int)
    requires
        frame.len() == 7,
        corrupted.len() == 7,
        spec_crc_good(frame),
        0 <= k < CRC_INDEX,
        frame[k] != corrupted[k],
        corrupted[CRC_INDEX as int] == frame[CRC_INDEX as int],
        forall|j: int| 0 <= j < CRC_INDEX && j != k ==> frame[j] == corrupted[j],
    ensures
        !spec_crc_good(corrupted),
{
    lemma_crc8_take_prefix(frame, CRC_INDEX as int);
    lemma_crc8_take_prefix(corrupted, CRC_INDEX as int);
    lemma_crc8_prefix_diverges(frame, corrupted, k, CRC_INDEX as int);
}

} // verus!
