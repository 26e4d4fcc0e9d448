use pseudorand::RngError;
use pseudorand::WordSource;
use pseudorand::dist::Draw;
use pseudorand::dist::FastRangeU32;
use pseudorand::dist::mul_shift;
use pseudorand::dist::shuffle;
use pseudorand::splitmix::Splitmix64Stream;

fn stream(seed: u64) -> Splitmix64Stream {
    Splitmix64Stream::from(seed)
}

#[test]
fn test_draw_known_values() {
    let mut rng = stream(0);
    let mut r = FastRangeU32::new(10);
    let draws: Vec<u32> = (0..6).map(|_| r.draw(&mut rng)).collect();
    assert_eq!(draws, vec![4, 8, 6, 4, 5, 0]);
}

#[test]
fn test_draw_larger_bounds() {
    let mut rng = stream(0);
    let mut r = FastRangeU32::new(1_000_000);
    assert_eq!(r.draw(&mut rng), 480923);
    r.reset(7);
    assert_eq!(r.draw(&mut rng), 6);
}

#[test]
fn test_draw_in_bounds() {
    let mut rng = stream(7);
    for ub in [1u32, 2, 3, 5, 17, 255, 1024, 0x8000_0001, u32::MAX] {
        let mut r = FastRangeU32::new(ub);
        for _ in 0..50 {
            assert!(r.draw(&mut rng) < ub);
        }
    }
}

#[test]
fn test_draw_bound_one_consumes_nothing() {
    let mut untouched = stream(0);
    let mut consumed = stream(0);
    let mut one = FastRangeU32::new(1);
    for _ in 0..10 {
        assert_eq!(one.draw(&mut consumed), 0);
    }
    // the source was not advanced: the next draw at bound 10 matches the
    // first draw of an identical fresh source
    let mut ten_a = FastRangeU32::new(10);
    let mut ten_b = FastRangeU32::new(10);
    assert_eq!(ten_a.draw(&mut consumed), ten_b.draw(&mut untouched));
}

#[test]
fn test_mul_shift_exact_values() {
    assert_eq!(mul_shift(0xe4e7f110, 10), (0x8, 0xf10f6aa0));
    assert_eq!(mul_shift(123456789, 1000), (0x1c, 0xbe991a08));
    assert_eq!(mul_shift(u32::MAX, 7), (6, 0xffff_fff9));
    assert_eq!(mul_shift(0, 12345), (0, 0));
}

#[test]
fn test_try_new_invalid_bound() {
    assert!(matches!(FastRangeU32::try_new(0), Err(RngError::InvalidBound)));
    let ok = FastRangeU32::try_new(5).unwrap();
    assert_eq!(ok.upper_bound(), 5);
}

#[test]
fn test_reset_keeps_cache_at_same_bound() {
    let mut rng = stream(3);
    let mut r = FastRangeU32::new(10);
    // force the threshold to be computed and cached
    for _ in 0..20 {
        r.draw(&mut rng);
    }
    let cached = r.cut;
    r.reset(10);
    assert_eq!(r.cut, cached);
    r.reset(9);
    assert_eq!(r.upper_bound(), 9);
    assert_eq!(r.cut, 9);
}

#[test]
fn test_clear_and_default() {
    let mut r = FastRangeU32::new(44);
    r.clear();
    assert_eq!(r.upper_bound(), 0);
    assert_eq!(r.cut, 0);
    let d = FastRangeU32::default();
    assert_eq!(d.upper_bound(), 0);
    assert_eq!(d.cut, 0);
}

#[test]
fn test_draw_frequencies_near_uniform() {
    // empirical frequencies at a fixed bound stay close to 1/U
    let mut rng = stream(12345);
    let mut r = FastRangeU32::new(5);
    let mut counts = [0u32; 5];
    for _ in 0..5000 {
        counts[r.draw(&mut rng) as usize] += 1;
    }
    for &c in counts.iter() {
        assert!((c as i64 - 1000).abs() <= 100, "count {} strays from 1000", c);
    }
}

#[test]
fn test_shuffle_known_permutation() {
    let mut rng = stream(42);
    let mut v: Vec<u32> = (0..10).collect();
    shuffle(&mut v, &mut rng);
    assert_eq!(v, vec![1, 7, 0, 4, 3, 6, 5, 8, 2, 9]);
}

#[test]
fn test_shuffle_is_permutation() {
    let mut rng = stream(99);
    let mut v: Vec<u32> = (0..101).map(|k| k * 3).collect();
    let mut expected = v.clone();
    shuffle(&mut v, &mut rng);
    v.sort();
    expected.sort();
    assert_eq!(v, expected);
}

#[test]
fn test_shuffle_short_inputs_unchanged() {
    let mut untouched = stream(5);
    let mut rng = stream(5);
    let mut empty: Vec<u32> = vec![];
    shuffle(&mut empty, &mut rng);
    assert_eq!(empty, vec![]);
    let mut single = vec![9u32];
    shuffle(&mut single, &mut rng);
    assert_eq!(single, vec![9]);
    // no randomness was consumed
    let mut a = FastRangeU32::new(1000);
    let mut b = FastRangeU32::new(1000);
    assert_eq!(a.draw(&mut rng), b.draw(&mut untouched));
}

#[test]
fn test_slice_draw_returns_element() {
    let mut rng = stream(17);
    let v = [10u32, 20, 30, 40, 50];
    for _ in 0..20 {
        let x = (&v[..]).draw(&mut rng);
        assert!(v.contains(&x));
    }
}

#[test]
fn test_range_draw_known_values() {
    assert_eq!((10u8..20).draw(&mut stream(0)), 14);
    assert_eq!((100u16..200).draw(&mut stream(0)), 148);
    assert_eq!((..50u32).draw(&mut stream(0)), 24);
    assert_eq!((..=9u8).draw(&mut stream(0)), 4);
}

#[test]
fn test_range_draw_in_bounds() {
    let mut rng = stream(31);
    for _ in 0..25 {
        let a = (200u8..210).draw(&mut rng);
        assert!((200..210).contains(&a));
        let b = (5u32..6).draw(&mut rng);
        assert_eq!(b, 5);
        let c = (..3u16).draw(&mut rng);
        assert!(c < 3);
        let d = (..=1u32).draw(&mut rng);
        assert!(d <= 1);
    }
}

#[test]
fn test_next_word_assembles_stream_bytes() {
    let mut by_word = stream(44);
    let mut by_byte = stream(44);
    for _ in 0..10 {
        let bytes = by_byte.read_bytes(4);
        let expected = u32::from_le_bytes([bytes[0], bytes[1], bytes[2], bytes[3]]);
        assert_eq!(by_word.next_word(), expected);
    }
}
