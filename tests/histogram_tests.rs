use bubbles::histogram::{build, build_with_max, max_sample};
use bubbles::{Bucket, BUCKET_COUNT};

#[test]
fn empty_samples_give_empty_buckets() {
    let h = build(&vec![]);
    assert_eq!(h.len(), BUCKET_COUNT);
    for b in &h {
        assert_eq!(*b, Bucket { lower: 0, upper: 0, count: 0 });
    }
    let h = build_with_max(&vec![], 500);
    assert_eq!(h.len(), BUCKET_COUNT);
    assert!(h.iter().all(|b| b.lower == 0 && b.upper == 0 && b.count == 0));
}

#[test]
fn buckets_split_range_evenly() {
    let h = build(&vec![0, 5, 10, 99, 100]);
    let lowers: Vec<u128> = h.iter().map(|b| b.lower).collect();
    assert_eq!(lowers, vec![0, 100, 200, 300, 400, 500, 600, 700, 800, 900]);
    assert_eq!(h[9].upper, 1000);
    let counts: Vec<u64> = h.iter().map(|b| b.count).collect();
    assert_eq!(counts, vec![2, 1, 0, 0, 0, 0, 0, 0, 0, 2]);
    assert_eq!(counts.iter().sum::<u64>(), 5);
}

#[test]
fn edges_never_decrease() {
    let h = build(&vec![3, 1, 2]);
    for i in 0..BUCKET_COUNT {
        assert_eq!(h[i].width(), 3);
        if i + 1 < BUCKET_COUNT {
            assert_eq!(h[i].upper, h[i + 1].lower);
        }
    }
    assert_eq!(h.iter().map(|b| b.count).sum::<u64>(), 3);
    assert_eq!(h[3], Bucket { lower: 9, upper: 12, count: 1 });
    assert_eq!(h[6], Bucket { lower: 18, upper: 21, count: 1 });
    assert_eq!(h[9], Bucket { lower: 27, upper: 30, count: 1 });
    assert_eq!(h[0].count, 0);
}

#[test]
fn samples_above_max_go_to_last_bucket() {
    let h = build_with_max(&vec![1000, 0], 100);
    assert_eq!(h[9], Bucket { lower: 900, upper: 1000, count: 1 });
    assert_eq!(h[0].count, 1);
}

#[test]
fn bucket_center_and_width() {
    let b = Bucket { lower: 10, upper: 21, count: 4 };
    assert_eq!(b.center(), 15);
    assert_eq!(b.width(), 11);
    let b = Bucket { lower: u128::MAX - 1, upper: u128::MAX, count: 0 };
    assert_eq!(b.center(), u128::MAX - 1);
}

#[test]
fn buckets_have_equal_width_when_max_is_not_a_multiple_of_ten() {
    let h = build(&vec![1, 2, 15]);
    assert!(h.iter().all(|b| b.width() == 15));
    assert_eq!(h[0], Bucket { lower: 0, upper: 15, count: 1 });
    assert_eq!(h[1], Bucket { lower: 15, upper: 30, count: 1 });
    assert_eq!(h[9], Bucket { lower: 135, upper: 150, count: 1 });
    assert_eq!(h.iter().map(|b| b.count).sum::<u64>(), 3);
}

#[test]
fn small_max_gives_equal_nonzero_widths() {
    let h = build(&vec![0, 1]);
    assert!(h.iter().all(|b| b.width() == 1));
    assert_eq!(h[0].count, 1);
    assert_eq!(h[9].count, 1);
}

#[test]
fn largest_sample() {
    assert_eq!(max_sample(&vec![]), 0);
    assert_eq!(max_sample(&vec![4, 9, 2]), 9);
}
