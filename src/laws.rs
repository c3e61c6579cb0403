//! Laws of the generator, stated over the model and proved.
use crate::model::{
    absorb, absorb_full_blocks, absorb_padded, forward_secure, intermediate_state, pad_block,
    squeeze_output, squeeze_state, tail_of, RATE_BYTES, RATE_ZEROIZED_CAPACITY_BYTES,
};
use crate::permutation::{permute, STATE_BYTES};
use crate::RngState;
use vstd::arithmetic::div_mod::lemma_mod_sub_multiples_vanish;
use vstd::prelude::*;

verus! {

/// Region sizes: the state of every generator has 200 bytes, of which the
/// rate region takes 72, and the rate and zeroized-capacity regions together
/// 136, leaving 64 for the capacity region.
pub proof fn lemma_region_sizes(rng: &RngState)
    ensures
        rng@.len() == STATE_BYTES,
        rng@.take(RATE_BYTES as int).len() == 72,
        rng@.take(RATE_ZEROIZED_CAPACITY_BYTES as int).len() == 136,
        rng@.skip(RATE_ZEROIZED_CAPACITY_BYTES as int).len() == 64,
{
    rng.lemma_state_len();
}

/// The permutation keeps the state at 200 bytes.
pub proof fn lemma_permute_len(s: Seq<u8>)
    ensures
        permute(s).len() == STATE_BYTES,
{
}

/// The state after intermediate outputs has 200 bytes.
proof fn lemma_intermediate_state_len(s: Seq<u8>, n: nat)
    ensures
        intermediate_state(s, n).len() == STATE_BYTES,
    decreases n,
{
    if n > RATE_ZEROIZED_CAPACITY_BYTES {
        lemma_intermediate_state_len(permute(s), (n - RATE_ZEROIZED_CAPACITY_BYTES) as nat);
    }
}

/// Wipe and forward secrecy: after a fill of any length, the state has 200
/// bytes, its zeroized-capacity region is all zero, and its other bytes are
/// those of the last permutation's result.
pub proof fn lemma_fill_wipes_zeroized_capacity(s: Seq<u8>, n: nat)
    ensures
        squeeze_state(s, n).len() == STATE_BYTES,
        forall|i: int|
            RATE_BYTES <= i < RATE_ZEROIZED_CAPACITY_BYTES ==> #[trigger] squeeze_state(s, n)[i] == 0,
{
    if n > RATE_BYTES {
        lemma_intermediate_state_len(permute(s), (n - RATE_BYTES) as nat);
    }
}

/// A fill yields exactly as many bytes as were asked for.
pub proof fn lemma_fill_output_len(s: Seq<u8>, n: nat)
    requires
        s.len() == STATE_BYTES,
    ensures
        squeeze_output(s, n).len() == n,
{
    if n > RATE_BYTES {
        lemma_intermediate_output_len(permute(s), (n - RATE_BYTES) as nat);
    }
}

proof fn lemma_intermediate_output_len(s: Seq<u8>, n: nat)
    requires
        s.len() == STATE_BYTES,
    ensures
        crate::model::intermediate_output(s, n).len() == n,
    decreases n,
{
    if n > RATE_ZEROIZED_CAPACITY_BYTES {
        lemma_intermediate_output_len(permute(s), (n - RATE_ZEROIZED_CAPACITY_BYTES) as nat);
    }
}

/// Seeding is the full-block absorbs of the seed's full blocks, followed by
/// exactly one padded absorb of what is left after them (empty when the
/// length is a multiple of the rate).
pub proof fn lemma_seed_structure(s: Seq<u8>, data: Seq<u8>)
    ensures
        absorb(s, data) == absorb_padded(absorb_full_blocks(s, data), tail_of(data)),
        tail_of(data).len() < RATE_BYTES,
        data.len() % (RATE_BYTES as nat) == 0 ==> tail_of(data).len() == 0,
    decreases data.len(),
{
    if data.len() < RATE_BYTES {
        assert(data.len() % (RATE_BYTES as nat) == data.len()) by (nonlinear_arith)
            requires
                0 <= data.len() < 72,
        ;
        assert(tail_of(data) =~= data);
    } else {
        let rest = data.skip(RATE_BYTES as int);
        lemma_mod_sub_multiples_vanish(data.len() as int, RATE_BYTES as int);
        assert(rest.len() % (RATE_BYTES as nat) == data.len() % (RATE_BYTES as nat));
        assert(tail_of(rest) =~= tail_of(data));
        lemma_seed_structure(
            crate::model::absorb_full(s, data.take(RATE_BYTES as int)),
            rest,
        );
    }
    assert(0 <= data.len() % (RATE_BYTES as nat) < 72) by (nonlinear_arith);
}

/// Two seeds in a row are two independent padded-absorb sequences: the second
/// starts from the state that the first left, and each ends with its own
/// padded absorb.
pub proof fn lemma_two_seeds(s: Seq<u8>, x: Seq<u8>, y: Seq<u8>)
    ensures
        absorb(absorb(s, x), y) == absorb_padded(
            absorb_full_blocks(absorb_padded(absorb_full_blocks(s, x), tail_of(x)), y),
            tail_of(y),
        ),
{
    lemma_seed_structure(s, x);
    lemma_seed_structure(absorb(s, x), y);
}

/// Determinism: generators in the same state, given the same requests, give
/// the same output and reach the same state.
pub proof fn lemma_deterministic(a: &RngState, b: &RngState, seed: Seq<u8>, n: nat)
    requires
        a@ == b@,
    ensures
        absorb(a@, seed) == absorb(b@, seed),
        squeeze_output(a@, n) == squeeze_output(b@, n),
        squeeze_state(a@, n) == squeeze_state(b@, n),
{
}

/// Padding edge case: for a final chunk of 71 bytes, the padded block holds
/// the chunk, then the one byte 0x80 ^ 0x01 == 0x81.
pub proof fn lemma_padding_full_last_byte(data: Seq<u8>)
    requires
        data.len() == RATE_BYTES - 1,
    ensures
        pad_block(data)[RATE_BYTES - 1] == 0x81u8,
        forall|i: int| 0 <= i < RATE_BYTES - 1 ==> #[trigger] pad_block(data)[i] == data[i],
{
    assert((0u8 ^ 0x80u8) ^ 0x01u8 == 0x81u8) by (bit_vector);
    assert forall|i: int| 0 <= i < RATE_BYTES - 1 implies #[trigger] pad_block(data)[i] == data[i] by {
        let d = data[i];
        assert((d ^ 0u8) ^ 0u8 == d) by (bit_vector);
    }
}

/// Empty seed: seeding with no bytes still runs one padded absorb (one
/// permutation), whose block is 0x80, then zero bytes, then 0x01.
pub proof fn lemma_empty_seed(s: Seq<u8>)
    ensures
        absorb(s, Seq::empty()) == permute(crate::model::xor_into(s, pad_block(Seq::empty()))),
        pad_block(Seq::empty())[0] == 0x80u8,
        pad_block(Seq::empty())[RATE_BYTES - 1] == 0x01u8,
        forall|i: int| 0 < i < RATE_BYTES - 1 ==> #[trigger] pad_block(Seq::<u8>::empty())[i] == 0u8,
{
    assert((0u8 ^ 0x80u8) ^ 0u8 == 0x80u8) by (bit_vector);
    assert((0u8 ^ 0u8) ^ 0x01u8 == 0x01u8) by (bit_vector);
    assert((0u8 ^ 0u8) ^ 0u8 == 0u8) by (bit_vector);
}

} // verus!
