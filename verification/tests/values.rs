use param_order::key::same_key;
use param_order::value::{bits_from_rank, rank_from_bits, RANK_ONE, RANK_ZERO};

const SAMPLES: [f32; 15] = [
    f32::NEG_INFINITY,
    f32::MIN,
    -2.5,
    -1.0,
    -f32::MIN_POSITIVE,
    -1.0e-45,
    -0.0,
    0.0,
    1.0e-45,
    f32::MIN_POSITIVE,
    0.5,
    1.0,
    2.5,
    f32::MAX,
    f32::INFINITY,
];

#[test]
fn rank_of_known_values() {
    assert_eq!(rank_from_bits(0.0f32.to_bits()), 0);
    assert_eq!(rank_from_bits((-0.0f32).to_bits()), -1);
    assert_eq!(rank_from_bits(1.0f32.to_bits()), 0x3f80_0000);
    assert_eq!(rank_from_bits((-1.0f32).to_bits()), -0x3f80_0001);
    assert_eq!(rank_from_bits(0x0000_0001), 1);
    assert_eq!(rank_from_bits(0x7fff_ffff), i32::MAX);
    assert_eq!(rank_from_bits(0x8000_0000), -1);
    assert_eq!(rank_from_bits(0xffff_ffff), i32::MIN);
    assert_eq!(RANK_ZERO, 0);
    assert_eq!(RANK_ONE, 1_065_353_216);
}

#[test]
fn bits_of_known_ranks() {
    assert_eq!(bits_from_rank(0), 0);
    assert_eq!(bits_from_rank(-1), 0x8000_0000);
    assert_eq!(bits_from_rank(RANK_ONE), 1.0f32.to_bits());
    assert_eq!(bits_from_rank(i32::MAX), 0x7fff_ffff);
    assert_eq!(bits_from_rank(i32::MIN), 0xffff_ffff);
    assert_eq!(f32::from_bits(bits_from_rank(-0x3f80_0001)), -1.0);
}

#[test]
fn rank_and_bits_round_trip() {
    for bits in [0u32, 1, 0x3f80_0000, 0x7f80_0000, 0x7fc0_0000, 0x7fff_ffff, 0x8000_0000,
        0x8000_0001, 0xbf80_0000, 0xff80_0000, 0xffff_ffff]
    {
        assert_eq!(bits_from_rank(rank_from_bits(bits)), bits);
    }
    for rank in [i32::MIN, -0x3f80_0001, -2, -1, 0, 1, 2, 0x3f80_0000, i32::MAX] {
        assert_eq!(rank_from_bits(bits_from_rank(rank)), rank);
    }
    for value in SAMPLES {
        let back = f32::from_bits(bits_from_rank(rank_from_bits(value.to_bits())));
        assert_eq!(back.to_bits(), value.to_bits());
    }
}

#[test]
fn ranks_order_values_as_numbers() {
    for i in 0..SAMPLES.len() {
        for j in 0..SAMPLES.len() {
            let a = rank_from_bits(SAMPLES[i].to_bits());
            let b = rank_from_bits(SAMPLES[j].to_bits());
            assert_eq!(a < b, i < j);
            assert_eq!(a == b, i == j);
        }
    }
}

#[test]
fn same_key_compares_text() {
    assert!(same_key("one", "one"));
    assert!(same_key("", ""));
    assert!(!same_key("one", "two"));
    assert!(!same_key("one", "One"));
    assert!(!same_key("one", "ones"));
    assert!(!same_key("ones", "one"));
    assert!(!same_key("", "a"));
    assert!(same_key("gr\u{f6}\u{df}e", "gr\u{f6}\u{df}e"));
    assert!(!same_key("gr\u{f6}\u{df}e", "gr\u{f6}sse"));
}
