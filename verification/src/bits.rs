//! Bit level facts about register fields, proved once by the bit vector
//! solver.
use vstd::prelude::*;

verus! {

pub proof fn lemma_u16_fields(x: u16)
    by (bit_vector)
    ensures
        x & 0xFFF == x % 0x1000,
        x & 0xFF == x % 0x100,
        x & 0x7FFF == x % 0x8000,
        x & 0x7FFF <= 0x7FFF,
        x < 0x400 ==> x & 0x3FF == x,
        x & 0x3FF <= 0x3FF,
        x <= 0xFFF ==> x & 0xF00 == (x / 0x100) * 0x100,
        (x >> 11) & 1 == (x / 0x800) % 2,
        (x >> 12) & 0xF <= 0xF,
        x & 0x3 <= 3,
        (x >> 8) & 0x3 <= 3,
        (x >> 3) & 0x1 <= 1,
        (x >> 11) & 0x1 <= 1,
        x <= 3 ==> x << 8 <= 0x300,
        x <= 1 ==> x << 1 == 2 * x,
{
}

pub proof fn lemma_u16_rate(x: u16)
    by (bit_vector)
    ensures
        x <= 0xFFF ==> (x << 2) & 0xFFF == (x * 4) % 0x1000,
{
}

pub proof fn lemma_u16_pair(x: u16, y: u16)
    by (bit_vector)
    ensures
        x <= 0xFFF && y <= 0xFF ==> (x & 0xF00) | y == (x / 0x100) * 0x100 + y,
        y <= 0xF ==> (x & 0xFF) | (y << 8) == x % 0x100 + y * 0x100,
        x <= 1 && y <= 1 ==> (x << 1) | y <= 3,
        y < 16 ==> (((x & (1u16 << y)) != 0) == (((x >> y) % 2) == 1)),
{
}

pub proof fn lemma_u8_fields(b: u8)
    by (bit_vector)
    ensures
        b & 0xF == b % 0x10,
        (b >> 4) & 0xF == b / 0x10,
        (b & 0x1 != 0) == (b % 2 == 1),
        b & 0x1 == b % 2,
        b <= 0xF ==> ((b & 0x8 != 0) == (b >= 8)),
        b & 0x7 == b % 8,
{
}

pub proof fn lemma_prom_address(state: u8, opcode: u8, not_halt: u8)
    by (bit_vector)
    requires
        state <= 0xF,
        opcode <= 7,
        not_halt <= 1,
    ensures
        (state | (opcode << 4)) | (not_halt << 7) == state + 16 * opcode + 128 * not_halt,
{
}

pub proof fn lemma_usize_fields(n: usize)
    by (bit_vector)
    ensures
        n <= 0x1000 ==> n & 0xFFF == n % 0x1000,
        n <= 0xFFFF ==> n << 1 == 2 * n,
{
}

pub proof fn lemma_u64_bit8(c: u64)
    by (bit_vector)
    ensures
        (c & 0x100 != 0) == ((c / 0x100) % 2 == 1),
{
}

pub proof fn lemma_u128_truncate(q: u128)
    by (bit_vector)
    ensures
        q as u64 == q % 0x1_0000_0000_0000_0000,
{
}

pub proof fn lemma_u32_flags(f: u32)
    by (bit_vector)
    ensures
        f <= 1 ==> f | 0x2 == f + 2,
        0u32 | 0x1 == 1,
{
}

} // verus!
