use bloom_filter::rate::rate_is_proper;
use bloom_filter::BloomFilter;

fn rate(p: f32) -> u32 {
    p.to_bits()
}

fn scaled(n: u32, p: f32) -> u64 {
    (n as f32 * p.log2()).abs() as u64
}

fn size(n: u32, p: f32) -> u64 {
    BloomFilter::get_max_size(scaled(n, p))
}

#[test]
fn proper_rates_are_recognised_by_their_encoding() {
    assert!(rate_is_proper(rate(0.5)));
    assert!(rate_is_proper(rate(0.0001)));
    assert!(rate_is_proper(rate(f32::MIN_POSITIVE)));
    assert!(rate_is_proper(1));
    assert!(rate_is_proper(0x3F7F_FFFF));
    assert!(!rate_is_proper(0));
    assert!(!rate_is_proper(0x3F80_0000));
    assert!(!rate_is_proper(0x7F80_0000));
    assert!(!rate_is_proper(0x7FC0_0000));
    assert!(!rate_is_proper(0x8000_0000));
    assert!(!rate_is_proper(0xBF00_0000));
    assert!(!rate_is_proper(u32::MAX));
}

#[test]
fn proper_rates_are_those_strictly_between_zero_and_one() {
    let samples = [
        0.0f32, -0.0, 1.0e-45, 1.0e-38, 0.0001, 0.5, 0.999_999_9, 1.0, 1.000_000_1, 2.0,
        1.0e38, -0.5, -1.0e-45, f32::INFINITY, f32::NEG_INFINITY, f32::NAN,
    ];
    for p in samples {
        assert_eq!(rate_is_proper(rate(p)), 0.0 < p && p < 1.0, "rate {}", p);
    }
}

#[test]
fn the_array_has_one_bit_more_than_the_scaled_logarithm() {
    assert_eq!(BloomFilter::get_max_size(0), 1);
    assert_eq!(BloomFilter::get_max_size(1), 2);
    assert_eq!(BloomFilter::get_max_size(1_328_771), 1_328_772);
    assert_eq!(BloomFilter::get_max_size(u64::MAX - 1), u64::MAX);
}

#[test]
fn bit_array_size_of_the_worked_example() {
    assert_eq!(scaled(100000, 0.0001), 1_328_771);
    assert_eq!(size(100000, 0.0001), 1_328_772);
    assert_eq!(BloomFilter::get_number_of_hash_fns(100000, 1_328_772), 13);
    let filter = BloomFilter::new(100000, rate(0.0001), scaled(100000, 0.0001)).unwrap();
    assert_eq!(filter.bit_array_size(), 1_328_772);
    assert_eq!(filter.probe_count(), 13);
}

#[test]
fn bit_array_size_at_powers_of_two() {
    assert_eq!(size(5, 0.5), 6);
    assert_eq!(size(10, 0.25), 21);
    assert_eq!(size(1, 0.5), 2);
    assert_eq!(size(1000, 1.0 / 1024.0), 10_001);
}

#[test]
fn bit_array_size_of_the_smallest_rate() {
    assert_eq!(size(1, f32::from_bits(1)), 150);
    let filter = BloomFilter::new(1, 1, scaled(1, f32::from_bits(1))).unwrap();
    assert_eq!(filter.bit_array_size(), 150);
    assert_eq!(filter.probe_count(), 150);
}

#[test]
fn bit_array_size_rounds_up() {
    assert_eq!(size(7, 0.75), 3);
    assert_eq!(size(1000, 0.01), 6644);
    assert_eq!(size(2000, 0.01), 13_288);
    assert_eq!(size(1000, 0.001), 9966);
    assert_eq!(size(1000, 0.99), 15);
}

#[test]
fn bit_array_size_lies_between_the_simplified_and_the_textbook_size() {
    let samples = [
        (100000u32, 0.0001f32),
        (1000, 0.01),
        (1000, 0.001),
        (1000, 0.99),
        (7, 0.75),
        (12345, 0.3),
        (1, 1.0e-45),
        (50, 1.0e-30),
    ];
    for (n, p) in samples {
        let bits = n as f64 * -(p as f64).log2();
        let m = size(n, p) as f64;
        assert!(bits <= m, "{} elements at rate {}", n, p);
        assert!(m <= bits / std::f64::consts::LN_2 + 1.0, "{} elements at rate {}", n, p);
    }
}

#[test]
fn probe_count_is_the_whole_bits_per_element() {
    assert_eq!(BloomFilter::get_number_of_hash_fns(10, 20), 2);
    assert_eq!(BloomFilter::get_number_of_hash_fns(10, 29), 2);
    assert_eq!(BloomFilter::get_number_of_hash_fns(10, 30), 3);
    assert_eq!(BloomFilter::get_number_of_hash_fns(1000, 6644), 6);
    assert_eq!(BloomFilter::get_number_of_hash_fns(u32::MAX, u64::MAX), 4_294_967_297);
}

#[test]
fn probe_count_is_at_least_one() {
    assert_eq!(BloomFilter::get_number_of_hash_fns(1000, 15), 1);
    assert_eq!(BloomFilter::get_number_of_hash_fns(7, 3), 1);
    assert_eq!(BloomFilter::get_number_of_hash_fns(5, 5), 1);
    assert_eq!(BloomFilter::get_number_of_hash_fns(5, 0), 1);
    let filter = BloomFilter::new(1000, rate(0.99), scaled(1000, 0.99)).unwrap();
    assert_eq!(filter.bit_array_size(), 15);
    assert_eq!(filter.probe_count(), 1);
}

#[test]
fn bit_array_size_grows_with_the_capacity() {
    let mut last = 0;
    for n in [1u32, 2, 3, 10, 999, 1000, 1001, 2000, 1_000_000, u32::MAX] {
        let m = size(n, 0.01);
        assert!(m >= last, "capacity {}", n);
        last = m;
    }
}

#[test]
fn bit_array_size_grows_as_the_rate_shrinks() {
    let mut last = 0;
    for p in [0.999f32, 0.9, 0.5, 0.1, 0.01, 0.001, 0.0001, 1.0e-10, 1.0e-38, 1.0e-45] {
        let m = size(1000, p);
        assert!(m >= last, "rate {}", p);
        last = m;
    }
}
