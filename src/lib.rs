//! A cryptographically secure fast-erasure (forward-secure) pseudo-random
//! number generator built on the keccak-f[1600] permutation in a
//! sponge/duplex style.
//!
//! The 1600-bit state is split into three regions: the rate region (72
//! bytes), the zeroized-capacity region (64 bytes) and the capacity region
//! (64 bytes). Input is XORed into the rate region; output is read from the
//! rate region and, after the first block of a request, from the
//! zeroized-capacity region too; the zeroized-capacity region is wiped after
//! every request, so that a later leak of the state does not reveal earlier
//! output. Byte views of the state use the host's byte order, so output is not
//! portable across hosts of different endianness.
use vstd::prelude::*;
use vstd::string::StringSliceAdditionalSpecFns;

mod adapter;
mod internal_state;
pub mod laws;
pub mod model;
pub mod permutation;

pub use adapter::Seed;
use internal_state::InternalState;
use model::{
    absorb, absorb_full, absorb_padded, empty_state, forward_secure, intermediate_output,
    intermediate_state, pad_block, squeeze_output, squeeze_state, xor_into,
    RATE_BYTES, RATE_ZEROIZED_CAPACITY_BYTES,
};
use permutation::permute;

verus! {

/// The diversifier absorbed by every new generator, to separate it from other
/// constructions over the same permutation.
pub const DIVERSIFIER: &'static str = "FAST ERASURE KECCAK SPONGE/DUPLEX PRNG\0RUST CRATE fast-erasure-shake-rng 0.1.0\0\0";

/// The state of a new generator once the diversifier is absorbed.
pub open spec fn diversified_state() -> Seq<u8> {
    absorb(empty_state(), DIVERSIFIER.spec_bytes())
}

proof fn lemma_xor_steps(a: u8, b: u8, c: u8, d: u8)
    ensures
        ((a ^ b) ^ c) ^ d == a ^ ((b ^ c) ^ d),
        a ^ 0u8 == a,
        0u8 ^ a == a,
{
    assert(((a ^ b) ^ c) ^ d == a ^ ((b ^ c) ^ d)) by (bit_vector);
    assert(a ^ 0u8 == a) by (bit_vector);
    assert(0u8 ^ a == a) by (bit_vector);
}

/// The generator. Deterministic for a given sequence of calls on a given
/// host; it must be seeded with secret data before its output is used.
pub struct RngState {
    state: InternalState,
}

impl View for RngState {
    type V = Seq<u8>;

    /// The 200 bytes of the state.
    closed spec fn view(&self) -> Seq<u8> {
        self.state@
    }
}

impl RngState {
    /// The state has exactly 200 bytes.
    pub proof fn lemma_state_len(&self)
        ensures
            self@.len() == 200,
    {
        self.state.lemma_len();
    }

    /// Applies keccak-f[1600] to the state.
    fn apply_f(&mut self)
        ensures
            final(self)@ == permute(old(self)@),
    {
        self.state.apply_f();
    }

    /// Basic action "input" on the last chunk, shorter than the rate: XORs the
    /// chunk and its 10*1 padding into the rate region, then permutes.
    fn absorb_partial_block_padded(&mut self, block: &[u8])
        requires
            block@.len() < RATE_BYTES,
        ensures
            final(self)@ == absorb_padded(old(self)@, block@),
    {
        let ghost s0 = self@;
        proof { self.lemma_state_len(); }
        let mut i: usize = 0;
        while i < block.len()
            invariant
                i <= block@.len() < RATE_BYTES,
                s0.len() == 200,
                self@ == xor_into(s0, block@.take(i as int)),
            decreases block@.len() - i,
        {
            self.state.xor_rate_byte(i, block[i]);
            i += 1;
            assert(self@ =~= xor_into(s0, block@.take(i as int)));
        }
        self.state.xor_rate_byte(block.len(), 0x80u8);
        self.state.xor_rate_byte(RATE_BYTES - 1, 0x01u8);
        let ghost padded = pad_block(block@);
        assert forall|k: int| 0 <= k < 200 implies self@[k] == xor_into(s0, padded)[k] by {
            if k < RATE_BYTES {
                let d = if k < block@.len() { block@[k] } else { 0u8 };
                let p = if k == block@.len() { 0x80u8 } else { 0u8 };
                let q = if k == RATE_BYTES - 1 { 0x01u8 } else { 0u8 };
                lemma_xor_steps(s0[k], d, p, q);
                lemma_xor_steps(s0[k] ^ d, p, q, 0u8);
                lemma_xor_steps((s0[k] ^ d) ^ p, q, 0u8, 0u8);
                lemma_xor_steps(s0[k], 0u8, 0u8, 0u8);
                assert(self@[k] == ((s0[k] ^ d) ^ p) ^ q);
            }
        }
        assert(self@ =~= xor_into(s0, padded));
        self.apply_f();
    }

    /// Basic action "input" on a full rate-sized block: XORs it into the rate
    /// region, then permutes.
    fn absorb_block(&mut self, block: &[u8])
        requires
            block@.len() == RATE_BYTES,
        ensures
            final(self)@ == absorb_full(old(self)@, block@),
    {
        let ghost s0 = self@;
        proof { self.lemma_state_len(); }
        let mut i: usize = 0;
        while i < RATE_BYTES
            invariant
                i <= RATE_BYTES,
                block@.len() == RATE_BYTES,
                s0.len() == 200,
                self@ == xor_into(s0, block@.take(i as int)),
            decreases RATE_BYTES - i,
        {
            self.state.xor_rate_byte(i, block[i]);
            i += 1;
            assert(self@ =~= xor_into(s0, block@.take(i as int)));
        }
        assert(block@.take(RATE_BYTES as int) =~= block@);
        self.apply_f();
    }
}

} // verus!

verus! {

impl RngState {
    /// Basic action "initial-output": copies the leading bytes of the rate
    /// region into `dest` (as many as fit, at most the rate), then permutes.
    fn basic_initial_output(&mut self, dest: &mut [u8])
        ensures
            final(dest)@.len() == old(dest)@.len(),
            ({
                let n: int = if old(dest)@.len() < RATE_BYTES { old(dest)@.len() as int } else { RATE_BYTES as int };
                final(dest)@ == old(self)@.take(n) + old(dest)@.skip(n)
            }),
            final(self)@ == permute(old(self)@),
    {
        let len: usize = if dest.len() < RATE_BYTES { dest.len() } else { RATE_BYTES };
        let ghost d0 = dest@;
        proof { self.lemma_state_len(); }
        let rate = self.state.get_rate_bytes();
        let mut i: usize = 0;
        while i < len
            invariant
                i <= len <= RATE_BYTES,
                len <= d0.len(),
                self@.len() == 200,
                rate@ == self@.take(RATE_BYTES as int),
                dest@.len() == d0.len(),
                forall|k: int| 0 <= k < i ==> dest@[k] == rate@[k],
                forall|k: int| i <= k < d0.len() ==> dest@[k] == d0[k],
            decreases len - i,
        {
            dest[i] = rate[i];
            i += 1;
        }
        proof { self.lemma_state_len(); }
        assert(dest@ =~= self@.take(len as int) + d0.skip(len as int));
        self.apply_f();
    }

    /// Basic action "intermediate-output": copies the leading bytes of the
    /// rate and zeroized-capacity regions into `dest` from `start` on (as many
    /// as fit, at most both regions), then permutes.
    fn basic_intermediate_output(&mut self, dest: &mut [u8], start: usize)
        requires
            start <= old(dest)@.len(),
        ensures
            final(dest)@.len() == old(dest)@.len(),
            ({
                let n: int = if old(dest)@.len() - start < RATE_ZEROIZED_CAPACITY_BYTES {
                    old(dest)@.len() - start
                } else {
                    RATE_ZEROIZED_CAPACITY_BYTES as int
                };
                final(dest)@ == old(dest)@.take(start as int) + old(self)@.take(n) + old(dest)@.skip(
                    start + n,
                )
            }),
            final(self)@ == permute(old(self)@),
    {
        let len: usize = if dest.len() - start < RATE_ZEROIZED_CAPACITY_BYTES {
            dest.len() - start
        } else {
            RATE_ZEROIZED_CAPACITY_BYTES
        };
        let ghost d0 = dest@;
        let dlen = dest.len();
        proof { self.lemma_state_len(); }
        let src = self.state.get_rate_zeroized_capacity_bytes();
        let mut i: usize = 0;
        while i < len
            invariant
                i <= len <= RATE_ZEROIZED_CAPACITY_BYTES,
                start + len <= d0.len(),
                d0.len() == dlen,
                self@.len() == 200,
                src@ == self@.take(RATE_ZEROIZED_CAPACITY_BYTES as int),
                dest@.len() == d0.len(),
                forall|k: int| 0 <= k < start ==> dest@[k] == d0[k],
                forall|k: int| 0 <= k < i ==> dest@[start + k] == src@[k],
                forall|k: int| start + i <= k < d0.len() ==> dest@[k] == d0[k],
            decreases len - i,
        {
            dest[start + i] = src[i];
            i += 1;
        }
        proof { self.lemma_state_len(); }
        assert(dest@ =~= d0.take(start as int) + self@.take(len as int) + d0.skip(start + len));
        self.apply_f();
    }

    /// Basic action "make-forward-secure": wipes the zeroized-capacity region.
    fn basic_make_forward_secure(&mut self)
        ensures
            final(self)@ == forward_secure(old(self)@),
    {
        self.state.zeroize_for_forward_security()
    }

    /// (Re)seeds the generator with `seed`, of any length: each full
    /// rate-sized block is absorbed, then the rest (possibly empty) with
    /// padding. Secret seeding data needs at least 16 bytes of entropy.
    pub fn seed(&mut self, seed: &[u8])
        ensures
            final(self)@ == absorb(old(self)@, seed@),
    {
        let mut pos: usize = 0;
        assert(seed@.skip(0) =~= seed@);
        while seed.len() - pos >= RATE_BYTES
            invariant
                pos <= seed@.len(),
                absorb(self@, seed@.skip(pos as int)) == absorb(old(self)@, seed@),
            decreases seed@.len() - pos,
        {
            let ghost rest = seed@.skip(pos as int);
            assert(seed@.subrange(pos as int, pos + RATE_BYTES) =~= rest.take(RATE_BYTES as int));
            assert(seed@.skip(pos + RATE_BYTES) =~= rest.skip(RATE_BYTES as int));
            self.absorb_block(&seed[pos..pos + RATE_BYTES]);
            pos += RATE_BYTES;
        }
        assert(seed@.subrange(pos as int, seed@.len() as int) =~= seed@.skip(pos as int));
        self.absorb_partial_block_padded(&seed[pos..seed.len()]);
    }

    /// A generator whose state holds the diversifier alone. It MUST be seeded
    /// with secret data before use: until then its output is predictable.
    pub fn new_unseeded() -> (r: Self)
        ensures
            r@ == diversified_state(),
    {
        let mut rng = RngState { state: InternalState::new() };
        assert(rng@ =~= empty_state());
        rng.seed(DIVERSIFIER.as_bytes());
        rng
    }

    /// Fills `dest` with random bytes: an initial output from the rate
    /// region, then as many intermediate outputs as needed, then the wipe of
    /// the zeroized-capacity region. The generator MUST be seeded first.
    pub fn fill_random_bytes(&mut self, dest: &mut [u8])
        ensures
            final(dest)@ == squeeze_output(old(self)@, old(dest)@.len()),
            final(self)@ == squeeze_state(old(self)@, old(dest)@.len()),
    {
        let ghost s0 = self@;
        let ghost total = dest@.len();
        proof { self.lemma_state_len(); }
        self.basic_initial_output(dest);
        if dest.len() > RATE_BYTES {
            let mut pos: usize = RATE_BYTES;
            proof {
                let out = dest@.take(pos as int) + intermediate_output(self@, (total - pos) as nat);
                assert(out =~= squeeze_output(s0, total));
            }
            while dest.len() - pos > RATE_ZEROIZED_CAPACITY_BYTES
                invariant
                    RATE_BYTES <= pos < total,
                    dest@.len() == total,
                    self@.len() == 200,
                    dest@.take(pos as int) + intermediate_output(self@, (total - pos) as nat)
                        == squeeze_output(s0, total),
                    intermediate_state(self@, (total - pos) as nat) == intermediate_state(
                        permute(s0),
                        (total - RATE_BYTES) as nat,
                    ),
                decreases total - pos,
            {
                let ghost d1 = dest@;
                let ghost s1 = self@;
                self.basic_intermediate_output(dest, pos);
                proof { self.lemma_state_len(); }
                let ghost rest = intermediate_output(self@, (total - pos - RATE_ZEROIZED_CAPACITY_BYTES) as nat);
                assert(intermediate_output(s1, (total - pos) as nat) == s1.take(RATE_ZEROIZED_CAPACITY_BYTES as int) + rest);
                assert(dest@.take(pos + RATE_ZEROIZED_CAPACITY_BYTES) =~= d1.take(pos as int) + s1.take(RATE_ZEROIZED_CAPACITY_BYTES as int));
                assert(dest@.take(pos + RATE_ZEROIZED_CAPACITY_BYTES) + rest =~= d1.take(pos as int) + intermediate_output(s1, (total - pos) as nat));
                pos += RATE_ZEROIZED_CAPACITY_BYTES;
            }
            let ghost d1 = dest@;
            let ghost s1 = self@;
            self.basic_intermediate_output(dest, pos);
            assert(dest@ =~= d1.take(pos as int) + intermediate_output(s1, (total - pos) as nat));
        }
        self.basic_make_forward_secure();
    }

    /// An array of `N` random bytes, made by `fill_random_bytes`. The generator
    /// MUST be seeded first.
    pub fn get_random_bytes<const N: usize>(&mut self) -> (r: [u8; N])
        ensures
            r@ == squeeze_output(old(self)@, N as nat),
            final(self)@ == squeeze_state(old(self)@, N as nat),
    {
        let mut out = [0u8; N];
        self.fill_random_bytes(&mut out);
        out
    }
}

} // verus!

verus! {

#[verifier::external_type_specification]
#[verifier::external_body]
pub struct ExGetrandomError(getrandom::Error);

/// Relies on `getrandom::getrandom`: fills `dest` from the operating system's
/// secure random source, or returns its error. The length stays as it is.
#[verifier::external_body]
fn fill_from_os(dest: &mut [u8]) -> (r: Result<(), getrandom::Error>)
    ensures
        final(dest)@.len() == old(dest)@.len(),
{
    getrandom::getrandom(dest)
}

impl RngState {
    /// Calls `f` once, on a 64-byte buffer of zeros, then, if `f` succeeded,
    /// absorbs what `f` left in the buffer as one padded chunk (64 bytes fit
    /// in one block, so one permutation) and returns `Ok(())`. If `f` fails
    /// its error is returned as it is and the state is left as it was. The
    /// buffer is wiped on every way out, a panic in `f` included.
    pub fn seed_with_64<E, F: FnOnce(&mut [u8]) -> Result<(), E>>(&mut self, f: F) -> (r: Result<(), E>)
        requires
            forall|b: &mut [u8]| b@.len() == 64 ==> #[trigger] f.requires((b,)),
        ensures
            exists|b: &mut [u8]|
                b@ == Seq::new(64, |i: int| 0u8) && #[trigger] f.ensures((b,), r) && (r is Ok
                    ==> final(self)@ == absorb_padded(old(self)@, final(b)@)) && (r is Err
                    ==> final(self)@ == old(self)@),
    {
        let mut buffer = Seed::zeroed();
        let b = buffer.as_mut_bytes();
        let ghost b0 = b;
        let filled = f(b);
        proof {
            assert(exists|b2: &mut [u8]|
                #[trigger] f.ensures((b2,), filled) && b2@ == b0@ && final(b2)@ == buffer@);
            buffer.lemma_len();
        }
        if filled.is_ok() {
            self.absorb_partial_block_padded(buffer.as_bytes());
        }
        filled
    }
}

} // verus!

verus! {

impl RngState {
    /// (Re)seeds the generator with 64 bytes from the operating system's
    /// secure random source, through `seed_with_64`: if the source fills the
    /// buffer, those 64 bytes are absorbed and `Ok(())` is returned; if it
    /// fails, its error is returned and the state is left as it was. Which of
    /// the two happens, and which bytes come, is up to the source.
    pub fn seed_with_getrandom(&mut self) -> (r: Result<(), getrandom::Error>)
        ensures
            r is Err ==> final(self)@ == old(self)@,
            r is Ok ==> exists|b: Seq<u8>| b.len() == 64 && final(self)@ == absorb_padded(old(self)@, b),
    {
        let r = self.seed_with_64(fill_from_os);
        proof {
            let b = choose|b: &mut [u8]|
                b@ == Seq::new(64, |i: int| 0u8) && #[trigger] call_ensures(fill_from_os, (b,), r)
                    && (r is Ok ==> final(self)@ == absorb_padded(old(self)@, final(b)@)) && (r is Err
                    ==> final(self)@ == old(self)@);
            assert(final(b)@.len() == 64);
        }
        r
    }

    /// A generator seeded with 64 bytes from the operating system's secure
    /// random source: the preferred way to make one. It is a new unseeded
    /// generator after `seed_with_getrandom`; if that fails, its error is
    /// returned and no generator.
    pub fn new_from_getrandom() -> (r: Result<Self, getrandom::Error>)
        ensures
            r matches Ok(rng) ==> exists|b: Seq<u8>|
                b.len() == 64 && rng@ == absorb_padded(diversified_state(), b),
            exists|m: &mut RngState, seeded: Result<(), getrandom::Error>|
                (*m)@ == diversified_state() && #[trigger] call_ensures(
                    RngState::seed_with_getrandom,
                    (m,),
                    seeded,
                ) && (seeded is Ok ==> r is Ok && r->Ok_0@ == final(m)@) && (seeded is Err ==> r is Err
                    && r->Err_0 == seeded->Err_0),
    {
        let mut rng = Self::new_unseeded();
        let seeded = rng.seed_with_getrandom();
        match seeded {
            Ok(()) => Ok(rng),
            Err(e) => Err(e),
        }
    }

    /// A generator seeded from `fill`, which is called once on a 64-byte
    /// buffer of zeros, as `seed_with_64` does it. If `fill` fails, its error
    /// is returned.
    pub fn from_rng<E, F: FnOnce(&mut [u8]) -> Result<(), E>>(fill: F) -> (r: Result<Self, E>)
        requires
            forall|b: &mut [u8]| b@.len() == 64 ==> #[trigger] fill.requires((b,)),
        ensures
            exists|b: &mut [u8], filled: Result<(), E>|
                b@ == Seq::new(64, |i: int| 0u8) && #[trigger] fill.ensures((b,), filled)
                    && (filled is Ok ==> r is Ok && r->Ok_0@ == absorb_padded(diversified_state(), final(b)@))
                    && (filled is Err ==> r is Err && r->Err_0 == filled->Err_0),
    {
        let mut rng = Self::new_unseeded();
        let seeded = rng.seed_with_64(fill);
        match seeded {
            Ok(()) => Ok(rng),
            Err(e) => Err(e),
        }
    }
}

} // verus!

verus! {

impl Drop for RngState {
    /// Wipes the whole state, so that no key material stays in memory.
    fn drop(&mut self)
        opens_invariants none
        no_unwind
    {
        self.state.zeroize_all();
    }
}

} // verus!

verus! {

impl RngState {
    /// Whether every byte of the zeroized-capacity region is zero, as it is
    /// after every fill. Reveals nothing of the state but that.
    pub fn zeroized_capacity_is_clear(&self) -> (r: bool)
        ensures
            r == (forall|i: int| RATE_BYTES <= i < RATE_ZEROIZED_CAPACITY_BYTES ==> self@[i] == 0),
    {
        let r = self.state.zeroized_capacity_is_clear();
        assert(self@ == self.state@);
        r
    }
}

} // verus!
