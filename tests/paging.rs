use inlet_shop::paging::{results_per_page, results_to_skip};

#[test]
fn results_count_is_good() {
    let result = results_per_page(10, 100, 55);
    assert_eq!(result, 55);
}

#[test]
fn results_count_is_low() {
    let result = results_per_page(10, 100, 3);
    assert_eq!(result, 10);
}

#[test]
fn results_count_is_high() {
    let result = results_per_page(10, 100, 199);
    assert_eq!(result, 100);
}

#[test]
fn results_count_at_bounds() {
    assert_eq!(results_per_page(10, 100, 10), 10);
    assert_eq!(results_per_page(10, 100, 100), 100);
    assert_eq!(results_per_page(0, u64::MAX, u64::MAX), u64::MAX);
}

#[test]
fn skip_counts_whole_pages() {
    assert_eq!(results_to_skip(0, 20), Some(0));
    assert_eq!(results_to_skip(3, 20), Some(60));
    assert_eq!(results_to_skip(u64::MAX, 2), None);
}
