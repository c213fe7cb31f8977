//! Command words and response decoding of the sensor's serial protocol.
use vstd::prelude::*;

verus! {

/// Registers of the sensor, each at a fixed 14-bit address.
#[derive(Clone, Copy, Debug, PartialEq, Eq, Structural)]
pub enum Register {
    ClearErrorFlag,
    ProgrammingControl,
    OtpRegisterZeroPosHigh,
    OtpRegisterZeroPosLow,
    DiagAgc,
    Magnitude,
    Angle,
}

impl Register {
    /// The register's address on the wire.
    pub open spec fn spec_address(self) -> u16 {
        match self {
            Register::ClearErrorFlag => 0x0001,
            Register::ProgrammingControl => 0x0003,
            Register::OtpRegisterZeroPosHigh => 0x0016,
            Register::OtpRegisterZeroPosLow => 0x0017,
            Register::DiagAgc => 0x3FFD,
            Register::Magnitude => 0x3FFE,
            Register::Angle => 0x3FFF,
        }
    }

    pub fn address(self) -> (r: u16)
        ensures
            r == self.spec_address(),
            r <= 0x3FFF,
    {
        match self {
            Register::ClearErrorFlag => 0x0001,
            Register::ProgrammingControl => 0x0003,
            Register::OtpRegisterZeroPosHigh => 0x0016,
            Register::OtpRegisterZeroPosLow => 0x0017,
            Register::DiagAgc => 0x3FFD,
            Register::Magnitude => 0x3FFE,
            Register::Angle => 0x3FFF,
        }
    }
}

/// Read flag of a command word: bit 14.
pub const READ_FLAG: u16 = 0x4000;

/// Bits of a response word that carry data: the low fourteen.
pub const DATA_MASK: u16 = 0x3FFF;

/// Number of 1-bits among the low `n` bits of `x`.
pub open spec fn ones_below(x: u16, n: nat) -> nat
    decreases n,
{
    if n == 0 {
        0
    } else {
        ones_below(x, (n - 1) as nat) + ((x >> ((n - 1) as u16)) & 1) as nat
    }
}

/// Parity (0 or 1) of all sixteen bits of `x`.
pub open spec fn parity(x: u16) -> nat {
    ones_below(x, 16) % 2
}

/// The parity of `x` by folding its halves together with XOR: 16 bits to 8,
/// to 4, to 2, to 1.
pub open spec fn xor_fold(x: u16) -> u16 {
    let a = (x & 0x00FF) ^ (x >> 8u16);
    let b = (a & 0x000F) ^ (a >> 4u16);
    let c = (b & 0x0003) ^ (b >> 2u16);
    (c & 0x0001) ^ (c >> 1u16)
}

proof fn lemma_parity_is_xor_fold(x: u16)
    ensures
        parity(x) == xor_fold(x) as nat,
{
    reveal_with_fuel(ones_below, 17);
    assert(x >> 0u16 == x) by (bit_vector);
    assert((((x >> 0u16) & 1) as int + ((x >> 1u16) & 1) as int + ((x >> 2u16) & 1) as int + ((x >> 3u16) & 1) as int + ((x >> 4u16) & 1) as int + ((x >> 5u16) & 1) as int + ((x >> 6u16) & 1) as int + ((x >> 7u16) & 1) as int + ((x >> 8u16) & 1) as int + ((x >> 9u16) & 1) as int + ((x >> 10u16) & 1) as int + ((x >> 11u16) & 1) as int + ((x >> 12u16) & 1) as int + ((x >> 13u16) & 1) as int + ((x >> 14u16) & 1) as int + ((x >> 15u16) & 1) as int) % 2 == xor_fold(x) as int) by (bit_vector);
}

/// Setting bit 15 of a word with an odd number of ones and bit 15 clear makes
/// the number even.
proof fn lemma_parity_bit_evens(x: u16)
    requires
        parity(x) == 1,
        x & 0x8000 == 0,
    ensures
        parity(x | 0x8000) == 0,
{
    let y = x | 0x8000;
    lemma_parity_is_xor_fold(x);
    lemma_parity_is_xor_fold(y);
    assert(xor_fold(x) == 1 && x & 0x8000 == 0 ==> xor_fold(y) == 0) by (bit_vector)
        requires
            y == x | 0x8000,
    ;
}

/// `x` with bit 15 set where its sixteen bits hold an odd number of ones.
pub open spec fn with_parity(x: u16) -> u16 {
    if parity(x) == 1 { x | 0x8000 } else { x }
}

/// Setting the parity bit a second time changes nothing.
pub proof fn lemma_set_parity_idempotent(x: u16)
    ensures
        with_parity(with_parity(x)) == with_parity(x),
{
    let y = x | 0x8000;
    if parity(x) == 1 && x & 0x8000 == 0 {
        lemma_parity_bit_evens(x);
    }
    assert(x & 0x8000 != 0 ==> y == x) by (bit_vector)
        requires
            y == x | 0x8000,
    ;
    assert(y | 0x8000 == y) by (bit_vector)
        requires
            y == x | 0x8000,
    ;
}

/// The command word for any 14-bit address holds an even number of ones in
/// all sixteen bits: bit 15 is the parity of bits 0 to 14, which are the read
/// flag and the address.
pub proof fn lemma_command_word_parity(address: u16)
    requires
        address <= DATA_MASK,
    ensures
        parity(command_word(address)) == 0,
        command_word(address) & 0x7FFF == READ_FLAG | address,
        command_word(address) & 0x8000 == 0 <==> parity(READ_FLAG | address) == 0,
{
    let base = READ_FLAG | address;
    let y = base | 0x8000;
    assert(address <= 0x3FFF ==> base & 0x8000 == 0 && y & 0x7FFF == base && base & 0x7FFF == base
        && y & 0x8000 != 0) by (bit_vector)
        requires
            base == 0x4000u16 | address,
            y == base | 0x8000,
    ;
    if parity(base) == 1 {
        lemma_parity_bit_evens(base);
    }
}

/// The data of any reply fits in fourteen bits.
pub proof fn lemma_reply_data_bounded(b: [u8; 2])
    ensures
        reply_data(b) <= DATA_MASK,
{
    let w = be_word(b);
    assert(w & 0x3FFF <= 0x3FFF) by (bit_vector);
}

/// Sets bit 15 of `par` when the sixteen bits of `par` hold an odd number of ones.
pub fn set_parity(par: u16) -> (r: u16)
    ensures
        r == with_parity(par),
{
    let mut x = par;
    x = (x & 0x00FF) ^ (x >> 8);
    x = (x & 0x000F) ^ (x >> 4);
    x = (x & 0x0003) ^ (x >> 2);
    x = (x & 0x0001) ^ (x >> 1);
    proof {
        lemma_parity_is_xor_fold(par);
    }
    if x == 0x0001 {
        par | 0b1000_0000_0000_0000
    } else {
        par
    }
}

/// The command word that reads the register at `address`: read flag, address,
/// and bit 15 as even parity over the other fifteen bits.
pub open spec fn command_word(address: u16) -> u16 {
    with_parity(READ_FLAG | address)
}

/// The two bytes of `w` as sent on the wire, most significant first.
pub open spec fn be_bytes(w: u16) -> [u8; 2] {
    [(w >> 8u16) as u8, (w & 0xFF) as u8]
}

/// The word that the bytes `b` stand for, most significant first.
pub open spec fn be_word(b: [u8; 2]) -> u16 {
    ((b[0] as u16) * 256 + b[1] as u16) as u16
}

/// The data that a reply carries: the low fourteen bits of its word.
pub open spec fn reply_data(b: [u8; 2]) -> u16 {
    be_word(b) & DATA_MASK
}

/// Diagnostic flags (low nibble of the first byte) and gain (second byte) of a reply.
pub open spec fn reply_diag_gain(b: [u8; 2]) -> (u8, u8) {
    (b[0] & 0x0F, b[1])
}

/// Builds the command word that reads `reg`.
pub fn encode(reg: Register) -> (r: u16)
    ensures
        r == command_word(reg.spec_address()),
{
    let mut cmd: u16 = READ_FLAG;
    cmd |= reg.address();
    set_parity(cmd)
}

/// Splits `w` into its two bytes, most significant first.
pub fn to_be_bytes(w: u16) -> (r: [u8; 2])
    ensures
        r == be_bytes(w),
        be_word(r) == w,
{
    let r = [(w >> 8) as u8, (w & 0xFF) as u8];
    assert(((w >> 8u16) as u8) as u16 * 256 + ((w & 0xFF) as u8) as u16 == w) by (bit_vector);
    r
}

/// The 14-bit data of a reply: its big-endian word without the two status bits.
pub fn decode_u16(b: [u8; 2]) -> (r: u16)
    ensures
        r == reply_data(b),
        r <= DATA_MASK,
{
    let hi = b[0];
    let lo = b[1];
    assert((hi as u16) * 256 + lo as u16 == ((hi as u16) << 8u16) | lo as u16) by (bit_vector);
    let word: u16 = ((hi as u16) << 8) | lo as u16;
    let r = word & DATA_MASK;
    assert(word & 0x3FFF <= 0x3FFF) by (bit_vector);
    r
}

/// Diagnostic flags and gain of a reply to a read of `Register::DiagAgc`.
pub fn decode_diag_gain(b: [u8; 2]) -> (r: (u8, u8))
    ensures
        r == reply_diag_gain(b),
        r.0 <= 0x0F,
{
    let hi = b[0];
    assert(hi & 0x0F <= 0x0F) by (bit_vector);
    (hi & 0x0F, b[1])
}

} // verus!
