//! The keccak-f[1600] permutation, applied to a state held as 200 bytes.
//!
//! The state is read as 25 lanes of 64 bits in the host's byte order, the
//! permutation runs on the lanes, and the lanes are written back in the same
//! byte order.
use vstd::bytes::{spec_u64_from_le_bytes, spec_u64_to_le_bytes};
use vstd::endian::{endianness, Endian};
use vstd::prelude::*;

verus! {

/// Number of 64-bit lanes in the state.
pub const LANES: usize = 25;

/// Number of bytes in the state.
pub const STATE_BYTES: usize = 200;

/// What keccak-f[1600] (24 rounds) makes of 25 lanes.
pub uninterp spec fn keccak_f1600_lanes(lanes: Seq<u64>) -> Seq<u64>;

/// Bytes in the host's byte order, given in little-endian order.
pub open spec fn host_order(le: Seq<u8>) -> Seq<u8> {
    match endianness() {
        Endian::Little => le,
        Endian::Big => le.reverse(),
    }
}

/// The eight bytes of a lane, in the host's byte order.
pub open spec fn lane_to_bytes(x: u64) -> Seq<u8> {
    host_order(spec_u64_to_le_bytes(x))
}

/// The lane that eight bytes in the host's byte order make.
pub open spec fn lane_from_bytes(b: Seq<u8>) -> u64 {
    spec_u64_from_le_bytes(host_order(b))
}

/// The 25 lanes that 200 state bytes make.
pub open spec fn lanes_of(s: Seq<u8>) -> Seq<u64> {
    Seq::new(LANES as nat, |i: int| lane_from_bytes(s.subrange(8 * i, 8 * i + 8)))
}

/// The 200 state bytes that 25 lanes make.
pub open spec fn bytes_of(lanes: Seq<u64>) -> Seq<u8> {
    Seq::new(STATE_BYTES as nat, |k: int| lane_to_bytes(lanes[k / 8])[k % 8])
}

/// The permutation on the state as bytes.
pub open spec fn permute(s: Seq<u8>) -> Seq<u8> {
    bytes_of(keccak_f1600_lanes(lanes_of(s)))
}

/// Relies on `keccak::f1600`: applies keccak-f[1600] to the lanes in place.
#[verifier::external_body]
fn keccak_f1600(lanes: &mut [u64; 25])
    ensures
        final(lanes)@ == keccak_f1600_lanes(old(lanes)@),
{
    keccak::f1600(lanes)
}

/// Relies on `u64::from_ne_bytes`: reads a lane in the host's byte order.
#[verifier::external_body]
pub(crate) fn lane_from_ne_bytes(b: [u8; 8]) -> (r: u64)
    ensures
        r == lane_from_bytes(b@),
{
    u64::from_ne_bytes(b)
}

/// Relies on `u64::to_ne_bytes`: writes a lane in the host's byte order.
#[verifier::external_body]
pub(crate) fn lane_to_ne_bytes(x: u64) -> (r: [u8; 8])
    ensures
        r@ == lane_to_bytes(x),
{
    x.to_ne_bytes()
}

/// Applies keccak-f[1600] to the state bytes in place.
pub fn permute_in_place(state: &mut [u8; 200])
    ensures
        final(state)@ == permute(old(state)@),
{
    let mut lanes = [0u64; 25];
    let mut i: usize = 0;
    while i < LANES
        invariant
            i <= LANES,
            *state == *old(state),
            forall|l: int| 0 <= l < i ==> lanes@[l] == lane_from_bytes(
                #[trigger] state@.subrange(8 * l, 8 * l + 8),
            ),
        decreases LANES - i,
    {
        let mut b = [0u8; 8];
        let mut j: usize = 0;
        while j < 8
            invariant
                i < LANES,
                j <= 8,
                forall|k: int| 0 <= k < j ==> b@[k] == state@[8 * i + k],
            decreases 8 - j,
        {
            b[j] = state[8 * i + j];
            j += 1;
        }
        assert(b@ =~= state@.subrange(8 * i as int, 8 * i as int + 8));
        lanes[i] = lane_from_ne_bytes(b);
        i += 1;
    }
    assert(lanes@ =~= lanes_of(state@));
    keccak_f1600(&mut lanes);
    let ghost out = lanes@;
    let mut i: usize = 0;
    while i < LANES
        invariant
            i <= LANES,
            lanes@ == out,
            forall|l: int, m: int|
                0 <= l < i && 0 <= m < 8 ==> state@[8 * l + m] == #[trigger] lane_to_bytes(
                    out[l],
                )[m],
        decreases LANES - i,
    {
        let b = lane_to_ne_bytes(lanes[i]);
        let mut j: usize = 0;
        while j < 8
            invariant
                i < LANES,
                j <= 8,
                b@ == lane_to_bytes(out[i as int]),
                forall|l: int, m: int|
                    0 <= l < i && 0 <= m < 8 ==> state@[8 * l + m] == #[trigger] lane_to_bytes(
                        out[l],
                    )[m],
                forall|m: int| 0 <= m < j ==> state@[8 * i + m] == b@[m],
            decreases 8 - j,
        {
            state[8 * i + j] = b[j];
            j += 1;
        }
        i += 1;
    }
    assert forall|k: int| 0 <= k < STATE_BYTES implies state@[k] == bytes_of(out)[k] by {
        let l = k / 8;
        let m = k % 8;
        assert(k == 8 * l + m && 0 <= l < 25 && 0 <= m < 8) by (nonlinear_arith)
            requires 0 <= k < 200, l == k / 8, m == k % 8;
    }
    assert(state@ =~= bytes_of(out));
}

} // verus!
