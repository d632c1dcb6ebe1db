use segdisp::smoother::Smoother;

#[test]
fn sixteen_equal_samples_give_a_sixteenth() {
    for v in [0u16, 1, 15, 16, 255, 1000, 4095, 65535] {
        let mut s = Smoother::new();
        for _ in 0..15 {
            assert_eq!(s.push_sample(v), None);
        }
        assert_eq!(s.push_sample(v), Some(v / 16));
    }
}

#[test]
fn fifteen_samples_are_not_ready() {
    let mut s = Smoother::new();
    for i in 0..15u16 {
        assert_eq!(s.push_sample(4000 + i), None);
    }
}

#[test]
fn mean_truncates_twice() {
    let mut s = Smoother::new();
    let samples: [u16; 16] = [
        4095, 0, 17, 300, 2048, 1, 2, 3, 999, 1000, 1001, 77, 65, 4000, 123, 456,
    ];
    let mut out = None;
    for v in samples {
        out = s.push_sample(v);
    }
    let total: u64 = samples.iter().map(|v| *v as u64).sum();
    assert_eq!(total, 14187);
    assert_eq!(out, Some((total / 16 / 16) as u16));
    assert_eq!(out, Some(55));
}

#[test]
fn largest_samples_stay_in_range() {
    let mut s = Smoother::new();
    let mut out = None;
    for _ in 0..16 {
        out = s.push_sample(u16::MAX);
    }
    assert_eq!(out, Some(4095));
}

#[test]
fn next_push_starts_a_fresh_window() {
    let mut s = Smoother::new();
    for _ in 0..16 {
        s.push_sample(4095);
    }
    for _ in 0..15 {
        assert_eq!(s.push_sample(32), None);
    }
    assert_eq!(s.push_sample(32), Some(2));
    for _ in 0..15 {
        assert_eq!(s.push_sample(0), None);
    }
    assert_eq!(s.push_sample(0), Some(0));
}
