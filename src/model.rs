//! The mathematical model of the generator: the state as a sequence of 200
//! bytes, and what each action makes of it.
use crate::permutation::permute;
use vstd::prelude::*;

verus! {

/// Bytes in the rate region, the first region of the state.
pub const RATE_BYTES: usize = 72;

/// Bytes in each of the two capacity regions.
pub const CAPACITY_BYTES: usize = 64;

/// Bytes in the rate region and the zeroized-capacity region together.
pub const RATE_ZEROIZED_CAPACITY_BYTES: usize = RATE_BYTES + CAPACITY_BYTES;

/// `s` with `data` XORed into its leading bytes.
pub open spec fn xor_into(s: Seq<u8>, data: Seq<u8>) -> Seq<u8> {
    Seq::new(s.len(), |i: int| if i < data.len() { s[i] ^ data[i] } else { s[i] })
}

/// The rate-sized block that 10*1 padding makes of a final chunk shorter than
/// the rate: the chunk, then zero bytes, with 0x80 XORed in at the chunk's
/// length and 0x01 XORed in at the block's last byte.
pub open spec fn pad_block(data: Seq<u8>) -> Seq<u8> {
    Seq::new(
        RATE_BYTES as nat,
        |i: int|
            (if i < data.len() { data[i] } else { 0u8 }) ^ (if i == data.len() { 0x80u8 } else { 0u8 })
                ^ (if i == RATE_BYTES - 1 { 0x01u8 } else { 0u8 }),
    )
}

/// Basic action "input" on a full rate-sized block.
pub open spec fn absorb_full(s: Seq<u8>, block: Seq<u8>) -> Seq<u8> {
    permute(xor_into(s, block))
}

/// Basic action "input" on a final chunk shorter than the rate, padded.
pub open spec fn absorb_padded(s: Seq<u8>, data: Seq<u8>) -> Seq<u8> {
    permute(xor_into(s, pad_block(data)))
}

/// The state after absorbing the full blocks at the front of `data`.
pub open spec fn absorb_full_blocks(s: Seq<u8>, data: Seq<u8>) -> Seq<u8>
    decreases data.len(),
{
    if data.len() < RATE_BYTES {
        s
    } else {
        absorb_full_blocks(absorb_full(s, data.take(RATE_BYTES as int)), data.skip(RATE_BYTES as int))
    }
}

/// The bytes of `data` after its last full block.
pub open spec fn tail_of(data: Seq<u8>) -> Seq<u8> {
    data.skip(data.len() - data.len() % (RATE_BYTES as nat))
}

/// Seeding: every full block of `data` goes through the full-block input, then
/// the rest (possibly empty) through the padded input.
pub open spec fn absorb(s: Seq<u8>, data: Seq<u8>) -> Seq<u8>
    decreases data.len(),
{
    if data.len() < RATE_BYTES {
        absorb_padded(s, data)
    } else {
        absorb(absorb_full(s, data.take(RATE_BYTES as int)), data.skip(RATE_BYTES as int))
    }
}

/// Basic action "make-forward-secure": the zeroized-capacity region set to zero.
pub open spec fn forward_secure(s: Seq<u8>) -> Seq<u8> {
    Seq::new(
        s.len(),
        |i: int| if RATE_BYTES <= i < RATE_ZEROIZED_CAPACITY_BYTES { 0u8 } else { s[i] },
    )
}

/// The bytes that intermediate outputs yield for `n` requested bytes.
pub open spec fn intermediate_output(s: Seq<u8>, n: nat) -> Seq<u8>
    decreases n,
{
    if n <= RATE_ZEROIZED_CAPACITY_BYTES {
        s.take(n as int)
    } else {
        s.take(RATE_ZEROIZED_CAPACITY_BYTES as int) + intermediate_output(
            permute(s),
            (n - RATE_ZEROIZED_CAPACITY_BYTES) as nat,
        )
    }
}

/// The state after the intermediate outputs for `n` requested bytes.
pub open spec fn intermediate_state(s: Seq<u8>, n: nat) -> Seq<u8>
    decreases n,
{
    if n <= RATE_ZEROIZED_CAPACITY_BYTES {
        permute(s)
    } else {
        intermediate_state(permute(s), (n - RATE_ZEROIZED_CAPACITY_BYTES) as nat)
    }
}

/// The `n` bytes that a fill yields: an initial output from the rate region,
/// then intermediate outputs from the rate and zeroized-capacity regions.
pub open spec fn squeeze_output(s: Seq<u8>, n: nat) -> Seq<u8> {
    if n <= RATE_BYTES {
        s.take(n as int)
    } else {
        s.take(RATE_BYTES as int) + intermediate_output(permute(s), (n - RATE_BYTES) as nat)
    }
}

/// The state after a fill of `n` bytes, which ends with make-forward-secure.
pub open spec fn squeeze_state(s: Seq<u8>, n: nat) -> Seq<u8> {
    forward_secure(
        if n <= RATE_BYTES {
            permute(s)
        } else {
            intermediate_state(permute(s), (n - RATE_BYTES) as nat)
        },
    )
}

/// The state of a new generator before the diversifier is absorbed.
pub open spec fn empty_state() -> Seq<u8> {
    Seq::new(200, |i: int| 0u8)
}

} // verus!
