use greywater::filter::MedianFilter;

fn filter_of(samples: &[u64]) -> MedianFilter {
    let mut filter = MedianFilter::new();
    for &s in samples {
        filter.consume(s);
    }
    filter
}

#[test]
fn empty_filter_has_no_median() {
    let filter = MedianFilter::new();
    assert_eq!(filter.median(), None);
    assert_eq!(filter.len(), 0);
}

#[test]
fn median_rejects_single_outlier() {
    let filter = filter_of(&[10, 12, 11, 50, 11]);
    assert_eq!(filter.median(), Some(11));
}

#[test]
fn median_is_taken_over_the_last_five() {
    let filter = filter_of(&[1, 2, 3, 4, 5, 100, 100, 100]);
    assert_eq!(filter.len(), 5);
    // window is [4, 5, 100, 100, 100]
    assert_eq!(filter.median(), Some(100));
    let filter = filter_of(&[70, 50, 30, 10, 20, 40, 60]);
    // window is [30, 10, 20, 40, 60]
    assert_eq!(filter.median(), Some(30));
}

#[test]
fn median_of_partial_window_is_lower_middle() {
    assert_eq!(filter_of(&[7]).median(), Some(7));
    assert_eq!(filter_of(&[20, 10]).median(), Some(10));
    assert_eq!(filter_of(&[30, 10, 20]).median(), Some(20));
    assert_eq!(filter_of(&[40, 10, 30, 20]).median(), Some(20));
}

#[test]
fn median_with_equal_samples() {
    assert_eq!(filter_of(&[5, 5, 5, 5, 5]).median(), Some(5));
    assert_eq!(filter_of(&[10, 20, 10, 20, 10, 20]).median(), Some(20));
}

#[test]
fn median_twice_gives_the_same_value() {
    let filter = filter_of(&[3, 9, 1, 7, 5]);
    let first = filter.median();
    let second = filter.median();
    assert_eq!(first, Some(5));
    assert_eq!(first, second);
}
