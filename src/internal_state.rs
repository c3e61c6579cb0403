//! The 1600-bit keccak state, with access scoped to its three regions: the
//! rate region (read and write), the rate and zeroized-capacity regions
//! together (read only), and the wipe of the zeroized-capacity region. The
//! capacity region is changed by the permutation alone.
use crate::model::{forward_secure, CAPACITY_BYTES, RATE_BYTES, RATE_ZEROIZED_CAPACITY_BYTES};
use crate::permutation::{permute, permute_in_place, STATE_BYTES};
use vstd::prelude::*;
use zeroize::Zeroize;

verus! {

/// Relies on zeroize's `Zeroize` for byte slices: every byte is overwritten
/// with zero by writes that the compiler does not remove.
#[verifier::external_body]
pub(crate) fn wipe_bytes(b: &mut [u8])
    ensures
        final(b)@ == Seq::new(old(b)@.len(), |i: int| 0u8),
    opens_invariants none
    no_unwind
{
    b.zeroize()
}

/// The internal state of the generator: 25 lanes of 64 bits, held as 200
/// bytes in the host's byte order.
pub(crate) struct InternalState {
    state: [u8; 200],
}

impl View for InternalState {
    type V = Seq<u8>;

    closed spec fn view(&self) -> Seq<u8> {
        self.state@
    }
}

impl InternalState {
    /// A state with every byte zero.
    pub(crate) fn new() -> (r: Self)
        ensures
            r@ == Seq::new(STATE_BYTES as nat, |i: int| 0u8),
    {
        let r = InternalState { state: [0u8; 200] };
        assert(r@ =~= Seq::new(STATE_BYTES as nat, |i: int| 0u8));
        r
    }

    /// Applies keccak-f[1600] to the whole state.
    pub(crate) fn apply_f(&mut self)
        ensures
            final(self)@ == permute(old(self)@),
    {
        permute_in_place(&mut self.state);
    }

    /// Wipes the zeroized-capacity region. Done after the permutation, this
    /// makes the permutation impossible to invert across the wipe.
    pub(crate) fn zeroize_for_forward_security(&mut self)
        ensures
            final(self)@ == forward_secure(old(self)@),
    {
        let whole: &mut [u8] = &mut self.state;
        let (_rate, rest) = whole.split_at_mut(RATE_BYTES);
        let (zeroized, _capacity) = rest.split_at_mut(CAPACITY_BYTES);
        wipe_bytes(zeroized);
        assert(self.state@ =~= forward_secure(old(self)@));
    }

    /// Wipes the whole state.
    pub(crate) fn zeroize_all(&mut self)
        ensures
            final(self)@ == Seq::new(STATE_BYTES as nat, |i: int| 0u8),
        opens_invariants none
        no_unwind
    {
        let whole: &mut [u8] = &mut self.state;
        wipe_bytes(whole);
    }

    /// The rate region.
    pub(crate) fn get_rate_bytes(&self) -> (r: &[u8])
        ensures
            r@ == self@.take(RATE_BYTES as int),
    {
        &self.state[0..RATE_BYTES]
    }

    /// The rate region followed by the zeroized-capacity region.
    pub(crate) fn get_rate_zeroized_capacity_bytes(&self) -> (r: &[u8])
        ensures
            r@ == self@.take(RATE_ZEROIZED_CAPACITY_BYTES as int),
    {
        &self.state[0..RATE_ZEROIZED_CAPACITY_BYTES]
    }

    /// XORs `v` into byte `i` of the rate region.
    pub(crate) fn xor_rate_byte(&mut self, i: usize, v: u8)
        requires
            i < RATE_BYTES,
        ensures
            final(self)@ == old(self)@.update(i as int, old(self)@[i as int] ^ v),
    {
        self.state[i] = self.state[i] ^ v;
    }
}

} // verus!

verus! {

impl InternalState {
    /// The state has exactly 200 bytes.
    pub(crate) proof fn lemma_len(&self)
        ensures
            self@.len() == STATE_BYTES,
    {
    }
}

} // verus!

verus! {

impl InternalState {
    /// Whether every byte of the zeroized-capacity region is zero.
    pub(crate) fn zeroized_capacity_is_clear(&self) -> (r: bool)
        ensures
            r == (forall|i: int| RATE_BYTES <= i < RATE_ZEROIZED_CAPACITY_BYTES ==> self@[i] == 0),
    {
        let mut i: usize = RATE_BYTES;
        while i < RATE_ZEROIZED_CAPACITY_BYTES
            invariant
                RATE_BYTES <= i <= RATE_ZEROIZED_CAPACITY_BYTES,
                forall|k: int| RATE_BYTES <= k < i ==> self@[k] == 0,
            decreases RATE_ZEROIZED_CAPACITY_BYTES - i,
        {
            if self.state[i] != 0 {
                assert(self@[i as int] != 0);
                return false;
            }
            i += 1;
        }
        true
    }
}

} // verus!
