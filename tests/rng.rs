use fast_erasure_shake_rng::{RngState, Seed};

fn seeded(data: &[u8]) -> RngState {
    let mut rng = RngState::new_unseeded();
    rng.seed(data);
    rng
}

#[test]
fn it_works() {
    let result = 2 + 2;
    assert_eq!(result, 4);
}

#[test]
fn create_and_seed() {
    let mut rng = RngState::new_unseeded();
    rng.seed(b"HELLO WORLD");
    let out1 = rng.get_random_bytes::<32>();
    let out2 = rng.get_random_bytes::<32>();
    // probability of two subsequent 32 byte outputs to be equal is approximately 0
    // (2^-512)
    assert_ne!(out1, out2);
}

#[test]
fn create_from_getrandom() {
    let mut rng = RngState::new_from_getrandom().expect("error in getrandom");
    let out1 = rng.get_random_bytes::<32>();
    let out2 = rng.get_random_bytes::<32>();
    // probability of two subsequent 32 byte outputs to be equal is approximately 0
    // (2^-512)
    assert_ne!(out1, out2);
}

#[test]
fn rand_core_from_seed() {
    let seed = [37u64; 8].into();
    let mut rng = RngState::from_seed(seed);
    let mut buf = [0; 15];
    rng.try_fill_bytes(&mut buf).expect("unreachable");
    assert_ne!(buf, [0; 15]);
}

#[test]
fn hello_world_outputs_nonzero_and_distinct() {
    let mut rng = seeded(b"HELLO WORLD");
    let out1 = rng.get_random_bytes::<32>();
    let out2 = rng.get_random_bytes::<32>();
    assert_ne!(out1, [0u8; 32]);
    assert_ne!(out2, [0u8; 32]);
    assert_ne!(out1, out2);
}

#[test]
fn wipe_after_fill_of_any_length() {
    for len in [0usize, 1, 15, 71, 72, 73, 136, 208, 209, 344, 1000] {
        let mut rng = seeded(b"sixteen byte key material");
        let mut buf = vec![0u8; len];
        rng.fill_random_bytes(&mut buf);
        assert!(rng.zeroized_capacity_is_clear());
        assert_eq!(buf.len(), len);
    }
}

#[test]
fn seeding_leaves_zeroized_capacity_filled() {
    let rng = seeded(b"sixteen byte key material");
    assert!(!rng.zeroized_capacity_is_clear());
}

#[test]
fn from_seed_of_0x25_fills_nonzero_and_wipes() {
    let mut rng = RngState::from_seed(Seed::from([0x2525252525252525u64; 8]));
    let mut buf = [0u8; 15];
    rng.fill_random_bytes(&mut buf);
    assert_ne!(buf, [0u8; 15]);
    assert!(rng.zeroized_capacity_is_clear());
}

#[test]
fn same_seed_same_outputs() {
    let mut a = seeded(b"identical seed bytes");
    let mut b = seeded(b"identical seed bytes");
    for len in [8usize, 72, 208, 500] {
        let mut x = vec![0u8; len];
        let mut y = vec![0u8; len];
        a.fill_random_bytes(&mut x);
        b.fill_random_bytes(&mut y);
        assert_eq!(x, y);
    }
    a.seed(b"more");
    b.seed(b"more");
    assert_eq!(a.get_random_bytes::<40>(), b.get_random_bytes::<40>());
}

#[test]
fn unseeded_output_is_fixed() {
    let mut a = RngState::new_unseeded();
    let mut b = RngState::new_unseeded();
    assert_eq!(a.get_random_bytes::<32>(), b.get_random_bytes::<32>());
}

#[test]
fn two_seeds_are_not_one_concatenated_seed() {
    let mut a = seeded(b"first part");
    a.seed(b"second part");
    let mut b = seeded(b"first partsecond part");
    assert_ne!(a.get_random_bytes::<32>(), b.get_random_bytes::<32>());
}

#[test]
fn empty_seed_changes_state() {
    let mut a = RngState::new_unseeded();
    let mut b = seeded(b"");
    assert_ne!(a.get_random_bytes::<32>(), b.get_random_bytes::<32>());
}

#[test]
fn full_block_seed_runs_an_empty_padded_absorb() {
    let block = [b'A'; 72];
    let mut a = seeded(&block);
    let mut b = seeded(&block[..71]);
    assert_ne!(a.get_random_bytes::<32>(), b.get_random_bytes::<32>());
    let mut c = seeded(&block);
    let mut d = seeded(&block);
    assert_eq!(c.get_random_bytes::<32>(), d.get_random_bytes::<32>());
}

#[test]
fn seed_of_71_bytes_differs_from_70_and_72() {
    let data = [7u8; 72];
    let mut a = seeded(&data[..70]);
    let mut b = seeded(&data[..71]);
    let mut c = seeded(&data[..72]);
    let oa = a.get_random_bytes::<16>();
    let ob = b.get_random_bytes::<16>();
    let oc = c.get_random_bytes::<16>();
    assert_ne!(oa, ob);
    assert_ne!(ob, oc);
}

#[test]
fn first_rate_block_is_shared_by_longer_fills() {
    let mut a = seeded(b"prefix property seed");
    let mut b = seeded(b"prefix property seed");
    let mut short = [0u8; 72];
    let mut long = [0u8; 208];
    a.fill_random_bytes(&mut short);
    b.fill_random_bytes(&mut long);
    assert_eq!(&short[..], &long[..72]);
    // the intermediate output starts from the permuted state, not from the rate again
    assert_ne!(&long[..72], &long[72..144]);
}

#[test]
fn empty_fill_still_permutes() {
    let mut a = seeded(b"empty fill seed material");
    let mut b = seeded(b"empty fill seed material");
    let mut nothing: [u8; 0] = [];
    a.fill_random_bytes(&mut nothing);
    assert_ne!(a.get_random_bytes::<32>(), b.get_random_bytes::<32>());
}

#[test]
fn get_random_bytes_matches_fill() {
    let mut a = seeded(b"array and slice agree");
    let mut b = seeded(b"array and slice agree");
    let arr = a.get_random_bytes::<300>();
    let mut buf = [0u8; 300];
    b.fill_random_bytes(&mut buf);
    assert_eq!(arr, buf);
}

#[test]
fn next_u64_reads_eight_bytes_in_host_order() {
    let mut a = seeded(b"integer outputs seed");
    let mut b = seeded(b"integer outputs seed");
    let bytes = b.get_random_bytes::<8>();
    assert_eq!(a.next_u64(), u64::from_ne_bytes(bytes));
}

#[test]
fn next_u32_is_low_half_of_next_u64() {
    let mut a = seeded(b"integer outputs seed");
    let mut b = seeded(b"integer outputs seed");
    assert_eq!(a.next_u32(), b.next_u64() as u32);
    assert_ne!(a.next_u32(), a.next_u32());
}

#[test]
fn fill_bytes_matches_fill_random_bytes() {
    let mut a = seeded(b"fill bytes seed");
    let mut b = seeded(b"fill bytes seed");
    let mut x = [0u8; 100];
    let mut y = [0u8; 100];
    a.fill_bytes(&mut x);
    assert!(b.try_fill_bytes(&mut y).is_ok());
    assert_eq!(x, y);
}

#[test]
fn seed_from_u64_absorbs_host_order_bytes() {
    let mut a = RngState::seed_from_u64(0x0102030405060708);
    let mut b = seeded(&0x0102030405060708u64.to_ne_bytes());
    assert_eq!(a.get_random_bytes::<32>(), b.get_random_bytes::<32>());
    let mut c = RngState::seed_from_u64(0x0102030405060709);
    assert_ne!(b.get_random_bytes::<32>(), c.get_random_bytes::<32>());
}

#[test]
fn seed_from_lanes_uses_host_order() {
    let lanes = [0x0102030405060708u64, 1, 2, 3, 4, 5, 6, u64::MAX];
    let seed = Seed::from(lanes);
    let mut expected = Vec::new();
    for lane in lanes {
        expected.extend_from_slice(&lane.to_ne_bytes());
    }
    assert_eq!(seed.as_bytes(), &expected[..]);
}

#[test]
fn from_seed_matches_seed_with_64() {
    let mut a = RngState::from_seed(Seed::from([0x2525252525252525u64; 8]));
    let mut b = RngState::new_unseeded();
    let r: Result<(), ()> = b.seed_with_64(|buf| {
        for x in buf.iter_mut() {
            *x = 0x25;
        }
        Ok(())
    });
    assert!(r.is_ok());
    assert_eq!(a.get_random_bytes::<64>(), b.get_random_bytes::<64>());
    let mut c = seeded(&[0x25u8; 64]);
    let mut d = RngState::from_seed(Seed::from([0x2525252525252525u64; 8]));
    assert_eq!(c.get_random_bytes::<64>(), d.get_random_bytes::<64>());
}

#[test]
fn failed_producer_leaves_state_alone() {
    let mut a = seeded(b"producer failure seed");
    let mut b = seeded(b"producer failure seed");
    let r: Result<(), &str> = a.seed_with_64(|_buf| Err("no entropy"));
    assert_eq!(r, Err("no entropy"));
    assert_eq!(a.get_random_bytes::<32>(), b.get_random_bytes::<32>());
}

#[test]
fn reseed_from_getrandom_changes_output() {
    let mut a = seeded(b"reseed seed");
    let mut b = seeded(b"reseed seed");
    a.seed_with_getrandom().expect("error in getrandom");
    assert_ne!(a.get_random_bytes::<32>(), b.get_random_bytes::<32>());
}

#[test]
fn seed_zeroize_clears_bytes() {
    let mut seed = Seed::from([u64::MAX; 8]);
    seed.zeroize();
    assert_eq!(seed.as_bytes(), &[0u8; 64][..]);
}

#[test]
fn from_rng_absorbs_what_the_fill_wrote() {
    let r: Result<RngState, ()> = RngState::from_rng(|buf| {
        assert_eq!(buf.len(), 64);
        assert!(buf.iter().all(|&x| x == 0));
        for x in buf.iter_mut() {
            *x = 0x25;
        }
        Ok(())
    });
    let mut a = r.expect("fill succeeded");
    let mut b = RngState::from_seed(Seed::from([0x2525252525252525u64; 8]));
    assert_eq!(a.get_random_bytes::<32>(), b.get_random_bytes::<32>());
}

#[test]
fn from_rng_returns_the_fill_error() {
    let r: Result<RngState, u32> = RngState::from_rng(|_buf| Err(7));
    assert!(matches!(r, Err(7)));
}

#[test]
fn seed_with_64_hands_over_zeroed_64_bytes() {
    let mut rng = RngState::new_unseeded();
    let mut seen = Vec::new();
    let r: Result<(), ()> = rng.seed_with_64(|buf| {
        seen.extend_from_slice(buf);
        Ok(())
    });
    assert_eq!(r, Ok(()));
    assert_eq!(seen, vec![0u8; 64]);
}

#[test]
fn seed_default_as_mut_and_derives() {
    let mut seed = Seed::default();
    assert_eq!(seed.as_ref(), &[0u8; 64][..]);
    seed.as_mut()[3] = 9;
    let copy = seed.clone();
    assert_eq!(copy, seed);
    assert_ne!(copy, Seed::default());
    assert_eq!(copy.as_bytes()[3], 9);
    assert!(!format!("{:?}", copy).is_empty());
}
