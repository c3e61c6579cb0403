//! The surface that generic random-number consumers expect: 32- and 64-bit
//! outputs, fills that cannot fail, and construction from a 64-byte seed or a
//! `u64`.
use crate::internal_state::wipe_bytes;
use crate::model::{absorb_padded, squeeze_output, squeeze_state};
use crate::permutation::{lane_from_bytes, lane_from_ne_bytes, lane_to_bytes, lane_to_ne_bytes};
use crate::{diversified_state, RngState};
use core::convert::Infallible;
use vstd::prelude::*;

verus! {

/// The 64 bytes that eight lanes make in the host's byte order.
pub open spec fn seed_bytes_of(lanes: Seq<u64>) -> Seq<u8> {
    Seq::new(64, |k: int| lane_to_bytes(lanes[k / 8])[k % 8])
}

/// A 64-byte seed, wiped when dropped.
#[derive(Clone, Debug, PartialEq, Eq, Hash)]
pub struct Seed {
    bytes: [u8; 64],
}

impl View for Seed {
    type V = Seq<u8>;

    closed spec fn view(&self) -> Seq<u8> {
        self.bytes@
    }
}

impl Seed {
    /// The seed whose bytes are the eight lanes in the host's byte order.
    pub fn from_lanes(lanes: [u64; 8]) -> (r: Seed)
        ensures
            r@ == seed_bytes_of(lanes@),
    {
        let mut bytes = [0u8; 64];
        let mut i: usize = 0;
        while i < 8
            invariant
                i <= 8,
                forall|l: int, m: int|
                    0 <= l < i && 0 <= m < 8 ==> bytes@[8 * l + m] == #[trigger] lane_to_bytes(
                        lanes@[l],
                    )[m],
            decreases 8 - i,
        {
            let b = lane_to_ne_bytes(lanes[i]);
            let mut j: usize = 0;
            while j < 8
                invariant
                    i < 8,
                    j <= 8,
                    b@ == lane_to_bytes(lanes@[i as int]),
                    forall|l: int, m: int|
                        0 <= l < i && 0 <= m < 8 ==> bytes@[8 * l + m] == #[trigger] lane_to_bytes(
                            lanes@[l],
                        )[m],
                    forall|m: int| 0 <= m < j ==> bytes@[8 * i + m] == b@[m],
                decreases 8 - j,
            {
                bytes[8 * i + j] = b[j];
                j += 1;
            }
            i += 1;
        }
        assert forall|k: int| 0 <= k < 64 implies bytes@[k] == seed_bytes_of(lanes@)[k] by {
            let l = k / 8;
            let m = k % 8;
            assert(k == 8 * l + m && 0 <= l < 8 && 0 <= m < 8) by (nonlinear_arith)
                requires
                    0 <= k < 64,
                    l == k / 8,
                    m == k % 8,
            ;
        }
        let r = Seed { bytes };
        assert(r@ =~= seed_bytes_of(lanes@));
        r
    }

    /// A seed has exactly 64 bytes.
    pub proof fn lemma_len(&self)
        ensures
            self@.len() == 64,
    {
    }

    /// A seed of 64 zero bytes.
    pub fn zeroed() -> (r: Seed)
        ensures
            r@ == Seq::new(64, |i: int| 0u8),
    {
        let r = Seed { bytes: [0u8; 64] };
        assert(r@ =~= Seq::new(64, |i: int| 0u8));
        r
    }

    /// The seed's bytes, to be written in place.
    pub fn as_mut_bytes(&mut self) -> (r: &mut [u8])
        ensures
            r@ == old(self)@,
            final(self)@ == final(r)@,
    {
        &mut self.bytes
    }

    /// The seed's bytes.
    pub fn as_bytes(&self) -> (r: &[u8])
        ensures
            r@ == self@,
    {
        self.bytes.as_slice()
    }

    /// Overwrites every byte of the seed with zero.
    pub fn zeroize(&mut self)
        ensures
            final(self)@ == Seq::new(64, |i: int| 0u8),
        opens_invariants none
        no_unwind
    {
        let whole: &mut [u8] = &mut self.bytes;
        wipe_bytes(whole);
    }
}

impl AsRef<[u8]> for Seed {
    fn as_ref(&self) -> &[u8] {
        self.as_bytes()
    }
}

impl AsMut<[u8]> for Seed {
    fn as_mut(&mut self) -> &mut [u8] {
        self.as_mut_bytes()
    }
}

impl Default for Seed {
    fn default() -> (r: Seed)
        ensures
            r@ == Seq::new(64, |i: int| 0u8),
    {
        Seed::zeroed()
    }
}

impl Drop for Seed {
    fn drop(&mut self)
        opens_invariants none
        no_unwind
    {
        self.zeroize();
    }
}

impl From<[u64; 8]> for Seed {
    fn from(lanes: [u64; 8]) -> (r: Seed) {
        let r = Seed::from_lanes(lanes);
        proof {
            let s = choose|s: Seed| s@ == seed_bytes_of(lanes@);
            assert(s.bytes =~= r.bytes);
        }
        r
    }
}

impl vstd::std_specs::convert::FromSpecImpl<[u64; 8]> for Seed {
    open spec fn obeys_from_spec() -> bool {
        true
    }

    open spec fn from_spec(lanes: [u64; 8]) -> Seed {
        choose|s: Seed| s@ == seed_bytes_of(lanes@)
    }
}

impl RngState {
    /// 64 random bits in the host's byte order. Slow: every call ends with the
    /// wipe of the zeroized-capacity region.
    pub fn next_u64(&mut self) -> (r: u64)
        ensures
            r == lane_from_bytes(squeeze_output(old(self)@, 8)),
            final(self)@ == squeeze_state(old(self)@, 8),
    {
        let buf: [u8; 8] = self.get_random_bytes::<8>();
        lane_from_ne_bytes(buf)
    }

    /// The low 32 bits of `next_u64`.
    pub fn next_u32(&mut self) -> (r: u32)
        ensures
            r == lane_from_bytes(squeeze_output(old(self)@, 8)) as u32,
            final(self)@ == squeeze_state(old(self)@, 8),
    {
        self.next_u64() as u32
    }

    /// The same as `fill_random_bytes`.
    pub fn fill_bytes(&mut self, dest: &mut [u8])
        ensures
            final(dest)@ == squeeze_output(old(self)@, old(dest)@.len()),
            final(self)@ == squeeze_state(old(self)@, old(dest)@.len()),
    {
        self.fill_random_bytes(dest)
    }

    /// The same as `fill_random_bytes`; never fails.
    pub fn try_fill_bytes(&mut self, dest: &mut [u8]) -> (r: Result<(), Infallible>)
        ensures
            r is Ok,
            final(dest)@ == squeeze_output(old(self)@, old(dest)@.len()),
            final(self)@ == squeeze_state(old(self)@, old(dest)@.len()),
    {
        self.fill_random_bytes(dest);
        Ok(())
    }

    /// A generator whose diversified state has absorbed `seed` as one padded
    /// chunk. `seed` gives no more than the general `seed` method does.
    pub fn from_seed(seed: Seed) -> (r: Self)
        ensures
            r@ == absorb_padded(diversified_state(), seed@),
    {
        let mut rng = Self::new_unseeded();
        rng.absorb_partial_block_padded(seed.as_bytes());
        rng
    }

    /// A generator whose diversified state has absorbed the eight bytes of
    /// `state` (host byte order) as one padded chunk. Eight bytes cannot hold
    /// enough entropy: not for secret use.
    pub fn seed_from_u64(state: u64) -> (r: Self)
        ensures
            r@ == absorb_padded(diversified_state(), lane_to_bytes(state)),
    {
        let mut rng = Self::new_unseeded();
        let bytes = lane_to_ne_bytes(state);
        rng.absorb_partial_block_padded(bytes.as_slice());
        rng
    }
}

} // verus!
