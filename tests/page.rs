use space_backend::{Page, PageError};

#[test]
fn test_paginate_valid() {
    let records = vec![1, 2, 3];
    let page = Page::new(1, 3, 10, records.clone()).unwrap();
    assert_eq!(page.page_num, 1);
    assert_eq!(page.page_size, 3);
    assert_eq!(page.record_total, 10);
    assert_eq!(page.page_total, 4); // (10 + 3 - 1) / 3
    assert_eq!(page.records, records);
}

#[test]
fn test_paginate_with_zero_page_size() {
    let records = vec![1, 2, 3];
    let result = Page::new(1, 0, 10, records);
    assert!(result.is_err());
}

#[test]
fn test_paginate_with_excess_records() {
    let records = vec![1, 2, 3, 4];
    let result = Page::new(1, 3, 10, records);
    assert!(result.is_err());
}

#[test]
fn test_paginate_with_invalid_page_number() {
    let records = vec![1, 2, 3];
    let result = Page::new(5, 3, 10, records); // page_num should be between 1 and 4
    assert!(result.is_err());
}

#[test]
fn test_paginate_navigation_methods() {
    let records = vec![1, 2, 3];
    let page = Page::new(2, 3, 10, records.clone()).unwrap();
    assert!(page.has_prev());
    assert!(page.has_next());
    assert_eq!(page.first_page(), 1);
    assert_eq!(page.last_page(), 4);
    assert!(!page.is_active(&1));
    assert!(page.is_active(&2));
}

#[test]
fn test_paginate_empty_records() {
    let records: Vec<i32> = Vec::new();
    let page = Page::new(1, 3, 0, records).unwrap();
    assert_eq!(page.page_num, 1);
    assert_eq!(page.page_size, 3);
    assert_eq!(page.record_total, 0);
    assert_eq!(page.page_total, 1);
    assert!(page.records.is_empty());
    assert!(!page.has_prev());
    assert!(!page.has_next());
    assert!(page.is_active(&1));
}

#[test]
fn page_past_the_last_is_rejected_with_the_total() {
    let err = Page::new(5, 3, 10, vec![1]).err().unwrap();
    assert_eq!(
        err,
        PageError::PageOutOfRange {
            page_num: 5,
            page_total: 4
        }
    );
    assert_eq!(
        err.message(),
        "Invalid page number. It must be between 1 and page_total"
    );
}

#[test]
fn page_zero_is_rejected() {
    assert!(matches!(
        Page::new(0, 3, 10, vec![1]),
        Err(PageError::PageOutOfRange { page_num: 0, .. })
    ));
}

#[test]
fn zero_page_size_fails_even_without_records() {
    assert_eq!(
        Page::<u8>::new(1, 0, 0, vec![]).err(),
        Some(PageError::ZeroPageSize)
    );
}

#[test]
fn empty_total_pins_page_one_whatever_was_asked() {
    let page = Page::new(7, 5, 0, Vec::<u8>::new()).unwrap();
    assert_eq!(page.page_num, 1);
    assert_eq!(page.page_total, 1);
    assert!(page.records.is_empty());
}

#[test]
fn empty_total_drops_stray_records() {
    let page = Page::new(1, 1, 0, vec![1, 2]).unwrap();
    assert!(page.records.is_empty());
}

#[test]
fn excess_records_error_names_the_cause() {
    assert_eq!(
        Page::new(1, 3, 10, vec![1, 2, 3, 4]).err(),
        Some(PageError::ExcessRecords)
    );
}

#[test]
fn page_total_is_the_rounded_up_quotient() {
    for (total, size, expected) in [(1u64, 1u64, 1u64), (9, 3, 3), (10, 3, 4), (1, 10, 1), (11, 10, 2)] {
        let last = Page::new(expected, size, total, Vec::<u8>::new()).unwrap();
        assert_eq!(last.page_total, expected);
        assert!(!last.has_next());
        assert!(Page::new(expected + 1, size, total, Vec::<u8>::new()).is_err());
    }
}

#[test]
fn largest_totals_do_not_overflow() {
    let page = Page::new(1, 2, u64::MAX, Vec::<u8>::new()).unwrap();
    assert_eq!(page.page_total, u64::MAX / 2 + 1);
    let page = Page::new(u64::MAX, 1, u64::MAX, Vec::<u8>::new()).unwrap();
    assert_eq!(page.page_total, u64::MAX);
    assert!(page.has_prev());
    assert_eq!(page.last_page(), u64::MAX);
}
