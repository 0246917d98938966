use reverie::pagination::{Page, Paged, Paginable, PreconditionViolation};

fn page(number: usize, size: usize) -> Page {
    Page::new(number, size).expect("a valid page request")
}

fn numbers(upto: u32) -> Vec<u32> {
    (1..=upto).collect()
}

#[test]
fn a_request_beyond_the_end_is_clamped_to_the_last_page() {
    let paged = numbers(25).get_page(&page(10, 10));
    assert_eq!(paged.page, 3);
    assert_eq!(paged.data, vec![21, 22, 23, 24, 25]);
}

#[test]
fn page_zero_is_refused() {
    assert_eq!(Page::new(0, 10).unwrap_err(), PreconditionViolation::PageIsZero);
}

#[test]
fn size_zero_is_refused() {
    assert_eq!(Page::new(1, 0).unwrap_err(), PreconditionViolation::SizeIsZero);
    assert_eq!(Page::new(7, 0).unwrap_err(), PreconditionViolation::SizeIsZero);
}

#[test]
fn page_and_size_zero_report_the_page() {
    assert_eq!(Page::new(0, 0).unwrap_err(), PreconditionViolation::PageIsZero);
}

#[test]
fn a_page_keeps_what_it_was_built_with() {
    let p = page(4, 25);
    assert_eq!(p.number(), 4);
    assert_eq!(p.page_size(), 25);
    let q = p.clone();
    assert_eq!(q.number(), 4);
    assert_eq!(q.page_size(), 25);
}

#[test]
fn the_default_page_is_the_first_ten_rows() {
    let p = Page::default();
    assert_eq!(p.number(), 1);
    assert_eq!(p.page_size(), 10);
    assert_eq!(p.offset(), 0);
}

#[test]
fn the_first_page_has_offset_zero() {
    assert_eq!(page(1, 1).offset(), 0);
    assert_eq!(page(1, 10).offset(), 0);
    assert_eq!(page(1, usize::MAX).offset(), 0);
}

#[test]
fn later_pages_skip_the_pages_before_them() {
    assert_eq!(page(2, 10).offset(), 10);
    assert_eq!(page(3, 10).offset(), 20);
    assert_eq!(page(10, 10).offset(), 90);
    assert_eq!(page(5, 1).offset(), 4);
    assert_eq!(page(2, 100).offset(), 100);
}

#[test]
fn checked_offset_agrees_with_offset_where_it_fits() {
    assert_eq!(page(1, 10).checked_offset(), Some(0));
    assert_eq!(page(3, 10).checked_offset(), Some(20));
    assert_eq!(page(2, usize::MAX).checked_offset(), Some(usize::MAX));
}

#[test]
fn checked_offset_is_none_where_the_product_does_not_fit() {
    assert_eq!(page(3, usize::MAX).checked_offset(), None);
    assert_eq!(page(usize::MAX, usize::MAX).checked_offset(), None);
    assert_eq!(page(usize::MAX, 2).checked_offset(), None);
}

#[test]
fn a_short_list_is_served_whole_as_page_one() {
    let data = numbers(7);
    for asked in [1usize, 2, 3, 50] {
        let paged = data.get_page(&page(asked, 10));
        assert_eq!(paged.page, 1);
        assert_eq!(paged.data, data);
    }
}

#[test]
fn an_empty_list_gives_an_empty_first_page() {
    let data: Vec<u32> = Vec::new();
    let paged = data.get_page(&page(4, 10));
    assert_eq!(paged.page, 1);
    assert!(paged.data.is_empty());
}

#[test]
fn full_pages_are_cut_at_the_page_size() {
    let data = numbers(25);
    let first = data.get_page(&page(1, 10));
    assert_eq!(first.page, 1);
    assert_eq!(first.data, (1..=10).collect::<Vec<u32>>());
    let second = data.get_page(&page(2, 10));
    assert_eq!(second.page, 2);
    assert_eq!(second.data, (11..=20).collect::<Vec<u32>>());
    let third = data.get_page(&page(3, 10));
    assert_eq!(third.page, 3);
    assert_eq!(third.data, vec![21, 22, 23, 24, 25]);
}

#[test]
fn no_page_is_longer_than_the_page_size() {
    for len in 0..40u32 {
        let data = numbers(len);
        for size in 1..12usize {
            for asked in 1..8usize {
                let paged = data.get_page(&page(asked, size));
                assert!(paged.data.len() <= size);
                assert!(paged.page >= 1);
                assert!(paged.page <= asked.max(1));
            }
        }
    }
}

#[test]
fn overshooting_serves_the_last_page_that_holds_rows() {
    for len in 1..40usize {
        let data = numbers(len as u32);
        for size in 1..12usize {
            let last = if len % size == 0 { len / size } else { len / size + 1 };
            for asked in [last, last + 1, last + 2, 1000, usize::MAX] {
                let paged = data.get_page(&page(asked, size));
                assert_eq!(paged.page, last);
                assert!(!paged.data.is_empty());
                assert_eq!(paged.data, data[(last - 1) * size..].to_vec());
                assert_eq!(paged.data.last(), data.last());
            }
        }
    }
}

#[test]
fn no_list_with_rows_is_served_an_empty_page() {
    for len in 1..40usize {
        let data = numbers(len as u32);
        for size in 1..12usize {
            for asked in 1..50usize {
                let paged = data.get_page(&page(asked, size));
                assert!(!paged.data.is_empty());
                assert!(paged.page >= 1);
                assert!(paged.page <= asked);
                let start = (paged.page - 1) * size;
                assert!(start < len);
                let end = (start + size).min(len);
                assert_eq!(paged.data, data[start..end].to_vec());
            }
        }
    }
}

#[test]
fn a_page_within_the_list_is_served_as_asked() {
    for len in 1..40usize {
        let data = numbers(len as u32);
        for size in 1..12usize {
            if len < size {
                continue;
            }
            let last = if len % size == 0 { len / size } else { len / size + 1 };
            for asked in 1..=last {
                assert_eq!(data.get_page(&page(asked, size)).page, asked);
            }
        }
    }
}

#[test]
fn a_list_of_whole_pages_ends_with_its_last_full_page() {
    let data = numbers(20);
    let beyond = data.get_page(&page(5, 10));
    assert_eq!(beyond.page, 2);
    assert_eq!(beyond.data, (11..=20).collect::<Vec<u32>>());
    let next = data.get_page(&page(3, 10));
    assert_eq!(next.page, 2);
    assert_eq!(next.data, (11..=20).collect::<Vec<u32>>());
    let last = data.get_page(&page(2, 10));
    assert_eq!(last.page, 2);
    assert_eq!(last.data, (11..=20).collect::<Vec<u32>>());
    let first = data.get_page(&page(1, 10));
    assert_eq!(first.page, 1);
    assert_eq!(first.data, (1..=10).collect::<Vec<u32>>());
}

#[test]
fn a_list_of_one_full_page_has_no_second_page() {
    let data = numbers(10);
    let paged = data.get_page(&page(2, 10));
    assert_eq!(paged.page, 1);
    assert_eq!(paged.data, data);
    let one = numbers(1);
    let paged = one.get_page(&page(7, 1));
    assert_eq!(paged.page, 1);
    assert_eq!(paged.data, one);
}

#[test]
fn a_list_of_exactly_one_page_is_page_one() {
    let data = numbers(10);
    let paged = data.get_page(&page(1, 10));
    assert_eq!(paged.page, 1);
    assert_eq!(paged.data, data);
}

#[test]
fn get_page_clones_rows_that_are_not_copy() {
    let data: Vec<String> = vec!["a".to_string(), "b".to_string(), "c".to_string()];
    let paged = data.get_page(&page(2, 2));
    assert_eq!(paged.page, 2);
    assert_eq!(paged.data, vec!["c".to_string()]);
    assert_eq!(data.len(), 3);
}

#[test]
fn get_page_with_the_largest_page_size() {
    let data = numbers(3);
    let paged = data.get_page(&page(usize::MAX, usize::MAX));
    assert_eq!(paged.page, 1);
    assert_eq!(paged.data, data);
}

#[test]
fn to_paged_tags_the_rows_with_the_page_number() {
    let paged = vec![7u8, 8, 9].to_paged(page(4, 3));
    assert_eq!(paged.page, 4);
    assert_eq!(paged.data, vec![7, 8, 9]);
    let empty = Vec::<u8>::new().to_paged(page(2, 5));
    assert_eq!(empty.page, 2);
    assert!(empty.data.is_empty());
}

#[test]
fn the_default_response_is_an_empty_first_page() {
    let paged: Paged<u8> = Paged::default();
    assert_eq!(paged.page, 1);
    assert!(paged.data.is_empty());
    assert_eq!(paged.len(), 0);
}

#[test]
fn len_counts_the_rows() {
    let paged = numbers(25).get_page(&page(2, 10));
    assert_eq!(paged.len(), 10);
}

#[test]
fn page_arguments_default_to_the_first_hundred_rows() {
    let args = reverie::PageArgs::default();
    assert_eq!(args, reverie::PageArgs { page: 1, size: 100 });
    let page = args.into_page().unwrap();
    assert_eq!(page.number(), 1);
    assert_eq!(page.page_size(), 100);
}

#[test]
fn page_arguments_are_checked_when_they_become_a_page() {
    let page = reverie::PageArgs { page: 3, size: 7 }.into_page().unwrap();
    assert_eq!(page.number(), 3);
    assert_eq!(page.page_size(), 7);
    assert_eq!(
        reverie::PageArgs { page: 0, size: 7 }.into_page().unwrap_err(),
        PreconditionViolation::PageIsZero
    );
    assert_eq!(
        reverie::PageArgs { page: 3, size: 0 }.into_page().unwrap_err(),
        PreconditionViolation::SizeIsZero
    );
}

#[test]
fn a_row_appended_to_a_short_list_is_on_the_first_page() {
    for size in 1..12usize {
        for len in 0..size as u32 {
            let mut data = numbers(len);
            data.push(1000);
            let paged = data.get_page(&page(1, size));
            assert_eq!(paged.page, 1);
            assert_eq!(paged.data, data);
            assert_eq!(paged.data.last(), Some(&1000));
        }
    }
}
