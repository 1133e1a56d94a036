//! Bit-level helpers shared by the decoder and the operation semantics:
//! field extraction from an instruction word, sign extension, and the
//! architectural ABI names of the integer registers.

use vstd::prelude::*;
use vstd::string::*;
use crate::csr::NUM_CSR;

verus! {

/// The value with exactly the low `width` bits set.
pub open spec fn low_mask(width: usize) -> u32 {
    ((1u32 << width) - 1) as u32
}

/// The `width`-bit field of `value` that starts at bit `lsb`.
pub open spec fn spec_bits(value: u32, lsb: usize, width: usize) -> u32 {
    (value >> lsb) & low_mask(width)
}

/// `value` with bit `count` replicated into all higher bit positions
/// whenever it is set; `value` unchanged otherwise.
pub open spec fn spec_sign_extend(count: usize, value: u32) -> u32 {
    if value & (1u32 << count) != 0 {
        !low_mask(count) | value
    } else {
        value
    }
}

/// 32-bit addition with wraparound.
pub open spec fn wrap_add(a: u32, b: u32) -> u32 {
    if a + b > u32::MAX {
        (a + b - 0x1_0000_0000) as u32
    } else {
        (a + b) as u32
    }
}

/// 32-bit subtraction with wraparound.
pub open spec fn wrap_sub(a: u32, b: u32) -> u32 {
    if a - b < 0 {
        (a - b + 0x1_0000_0000) as u32
    } else {
        (a - b) as u32
    }
}

/// Logical left shift by `sh` modulo 32.
pub open spec fn shl32(x: u32, sh: u32) -> u32 {
    x << (sh % 32)
}

/// Logical right shift by `sh` modulo 32.
pub open spec fn shr32(x: u32, sh: u32) -> u32 {
    x >> (sh % 32)
}

/// Arithmetic right shift by `sh` modulo 32: the 32-bit word is read as a
/// two's-complement value, shifted with sign replication, and re-read as
/// unsigned.
pub open spec fn sra32(x: u32, sh: u32) -> u32 {
    (((x as i32) >> (sh % 32)) as u32)
}

proof fn lemma_shift_one_nonzero(width: usize)
    by (bit_vector)
    requires
        width < 32,
    ensures
        1u32 << width >= 1,
{
}

pub proof fn lemma_bits_bound(value: u32, lsb: usize, width: usize)
    by (bit_vector)
    requires
        lsb < 32,
        width < 32,
    ensures
        spec_bits(value, lsb, width) <= low_mask(width),
{
}

/// The concrete masks for every field width the decoder extracts.
pub proof fn lemma_low_mask_values()
    by (bit_vector)
    ensures
        low_mask(1) == 0x1u32,
        low_mask(3) == 0x7u32,
        low_mask(4) == 0xfu32,
        low_mask(5) == 0x1fu32,
        low_mask(6) == 0x3fu32,
        low_mask(7) == 0x7fu32,
        low_mask(8) == 0xffu32,
        low_mask(10) == 0x3ffu32,
        low_mask(12) == 0xfffu32,
        low_mask(13) == 0x1fffu32,
        low_mask(20) == 0xfffffu32,
{
}

/// Extracts the `width`-bit field of `value` that starts at bit `lsb`.
pub fn pick(value: &u32, lsb: usize, width: usize) -> (r: u32)
    requires
        lsb < 32,
        width < 32,
    ensures
        r == spec_bits(*value, lsb, width),
        r <= low_mask(width),
{
    proof {
        lemma_shift_one_nonzero(width);
        lemma_bits_bound(*value, lsb, width);
    }
    (*value >> lsb) & ((1u32 << width) - 1)
}

/// The field extractor under the name the display tooling uses.
pub fn take_bit(value: &u32, lsb: usize, width: usize) -> (r: u32)
    requires
        lsb < 32,
        width < 32,
    ensures
        r == spec_bits(*value, lsb, width),
        r <= low_mask(width),
{
    pick(value, lsb, width)
}

/// Widens a `count + 1`-bit two's-complement value to 32 bits by
/// replicating its sign bit, bit `count`.
pub fn sign_extend(count: usize, value: u32) -> (r: u32)
    requires
        count < 32,
    ensures
        r == spec_sign_extend(count, value),
{
    proof {
        lemma_shift_one_nonzero(count);
    }
    let bit: u32 = 1u32 << count;
    if value & bit != 0 {
        let mask: u32 = !(bit - 1);
        mask | value
    } else {
        value
    }
}

/// Sign extension under the name the display tooling uses.
pub fn sext(count: usize, value: u32) -> (r: u32)
    requires
        count < 32,
    ensures
        r == spec_sign_extend(count, value),
{
    sign_extend(count, value)
}

/// The character of one decimal digit.
pub open spec fn spec_dec_digit(d: u32) -> Seq<char> {
    if d == 0 { "0"@ }
    else if d == 1 { "1"@ }
    else if d == 2 { "2"@ }
    else if d == 3 { "3"@ }
    else if d == 4 { "4"@ }
    else if d == 5 { "5"@ }
    else if d == 6 { "6"@ }
    else if d == 7 { "7"@ }
    else if d == 8 { "8"@ }
    else if d == 9 { "9"@ }
    else { ""@ }
}

/// The character of one hexadecimal digit, lower case.
pub open spec fn spec_hex_digit(d: u32) -> Seq<char> {
    if d < 10 { spec_dec_digit(d) }
    else if d == 10 { "a"@ }
    else if d == 11 { "b"@ }
    else if d == 12 { "c"@ }
    else if d == 13 { "d"@ }
    else if d == 14 { "e"@ }
    else if d == 15 { "f"@ }
    else { ""@ }
}

/// The decimal rendering of `n`, without leading zeros.
pub open spec fn spec_dec(n: u32) -> Seq<char>
    decreases n,
{
    if n < 10 {
        spec_dec_digit(n)
    } else {
        spec_dec(n / 10) + spec_dec_digit(n % 10)
    }
}

/// The hexadecimal rendering of `n`, lower case, without leading zeros.
pub open spec fn spec_hex(n: u32) -> Seq<char>
    decreases n,
{
    if n < 16 {
        spec_hex_digit(n)
    } else {
        spec_hex(n / 16) + spec_hex_digit(n % 16)
    }
}

fn dec_digit_str(d: u32) -> (r: &'static str)
    requires
        d < 10,
    ensures
        r@ == spec_dec_digit(d),
{
    match d {
        0 => "0",
        1 => "1",
        2 => "2",
        3 => "3",
        4 => "4",
        5 => "5",
        6 => "6",
        7 => "7",
        8 => "8",
        9 => "9",
        _ => "",
    }
}

fn hex_digit_str(d: u32) -> (r: &'static str)
    requires
        d < 16,
    ensures
        r@ == spec_hex_digit(d),
{
    match d {
        0 => "0",
        1 => "1",
        2 => "2",
        3 => "3",
        4 => "4",
        5 => "5",
        6 => "6",
        7 => "7",
        8 => "8",
        9 => "9",
        10 => "a",
        11 => "b",
        12 => "c",
        13 => "d",
        14 => "e",
        15 => "f",
        _ => "",
    }
}

/// Renders `n` in decimal.
pub fn u32_to_dec(n: u32) -> (r: String)
    ensures
        r@ == spec_dec(n),
    decreases n,
{
    if n < 10 {
        String::from_str(dec_digit_str(n))
    } else {
        proof {
            lemma_div_shrinks(n, 10);
        }
        let rest: String = u32_to_dec(n / 10);
        rest.concat(dec_digit_str(n % 10))
    }
}

/// Renders `n` in hexadecimal, lower case.
pub fn u32_to_hex(n: u32) -> (r: String)
    ensures
        r@ == spec_hex(n),
    decreases n,
{
    if n < 16 {
        String::from_str(hex_digit_str(n))
    } else {
        proof {
            lemma_div_shrinks(n, 16);
        }
        let rest: String = u32_to_hex(n / 16);
        rest.concat(hex_digit_str(n % 16))
    }
}

proof fn lemma_div_shrinks(n: u32, d: u32)
    by (nonlinear_arith)
    requires
        d >= 2,
        n >= d,
    ensures
        n / d < n,
{
}

/// The ABI name of integer register `i`.
pub open spec fn spec_reg_name(i: int) -> Seq<char> {
    if i == 0 { "zero"@ }
    else if i == 1 { "ra"@ }
    else if i == 2 { "sp"@ }
    else if i == 3 { "gp"@ }
    else if i == 4 { "tp"@ }
    else if i == 5 { "t0"@ }
    else if i == 6 { "t1"@ }
    else if i == 7 { "t2"@ }
    else if i == 8 { "s0"@ }
    else if i == 9 { "s1"@ }
    else if i == 10 { "a0"@ }
    else if i == 11 { "a1"@ }
    else if i == 12 { "a2"@ }
    else if i == 13 { "a3"@ }
    else if i == 14 { "a4"@ }
    else if i == 15 { "a5"@ }
    else if i == 16 { "a6"@ }
    else if i == 17 { "a7"@ }
    else if i == 18 { "s2"@ }
    else if i == 19 { "s3"@ }
    else if i == 20 { "s4"@ }
    else if i == 21 { "s5"@ }
    else if i == 22 { "s6"@ }
    else if i == 23 { "s7"@ }
    else if i == 24 { "s8"@ }
    else if i == 25 { "s9"@ }
    else if i == 26 { "s10"@ }
    else if i == 27 { "s11"@ }
    else if i == 28 { "t3"@ }
    else if i == 29 { "t4"@ }
    else if i == 30 { "t5"@ }
    else if i == 31 { "t6"@ }
    else { "INVALID"@ }
}

/// Maps an integer register index to its architectural ABI name.
pub fn get_int_reg_name(index: usize) -> (r: String)
    ensures
        r@ == spec_reg_name(index as int),
{
    match index {
        0 => String::from_str("zero"),
        1 => String::from_str("ra"),
        2 => String::from_str("sp"),
        3 => String::from_str("gp"),
        4 => String::from_str("tp"),
        5 => String::from_str("t0"),
        6 => String::from_str("t1"),
        7 => String::from_str("t2"),
        8 => String::from_str("s0"),
        9 => String::from_str("s1"),
        10 => String::from_str("a0"),
        11 => String::from_str("a1"),
        12 => String::from_str("a2"),
        13 => String::from_str("a3"),
        14 => String::from_str("a4"),
        15 => String::from_str("a5"),
        16 => String::from_str("a6"),
        17 => String::from_str("a7"),
        18 => String::from_str("s2"),
        19 => String::from_str("s3"),
        20 => String::from_str("s4"),
        21 => String::from_str("s5"),
        22 => String::from_str("s6"),
        23 => String::from_str("s7"),
        24 => String::from_str("s8"),
        25 => String::from_str("s9"),
        26 => String::from_str("s10"),
        27 => String::from_str("s11"),
        28 => String::from_str("t3"),
        29 => String::from_str("t4"),
        30 => String::from_str("t5"),
        31 => String::from_str("t6"),
        _ => String::from_str("INVALID"),
    }
}

/// The display name of CSR `i`: the architectural name where the trap
/// machinery gives the register one, the hexadecimal index otherwise.
pub open spec fn spec_csr_name(i: int) -> Seq<char> {
    if i == 0x300 { "mstatus"@ }
    else if i == 0x305 { "mtvec"@ }
    else if i == 0x341 { "mepc"@ }
    else if i == 0x342 { "mcause"@ }
    else if i == 0x343 { "mtval"@ }
    else { "0x"@ + spec_hex(i as u32) }
}

/// Maps a CSR index to its display name.
pub fn get_csr_name(index: usize) -> (r: String)
    requires
        index < NUM_CSR,
    ensures
        r@ == spec_csr_name(index as int),
{
    match index {
        0x300 => String::from_str("mstatus"),
        0x305 => String::from_str("mtvec"),
        0x341 => String::from_str("mepc"),
        0x342 => String::from_str("mcause"),
        0x343 => String::from_str("mtval"),
        _ => String::from_str("0x").concat(u32_to_hex(index as u32).as_str()),
    }
}

} // verus!
