use song_catalog::models::Record;
use song_catalog::paging::{count_pages, paginate};

fn items(n: usize) -> Vec<Record> {
    (0..n)
        .map(|i| {
            let mut r = Record::new();
            r.insert("n", i.to_string());
            r
        })
        .collect()
}

fn numbers(page: &[Record]) -> Vec<String> {
    page.iter().map(|r| r.get("n").unwrap().to_string()).collect()
}

#[test]
fn full_pages_and_one_partial_page() {
    assert_eq!(count_pages(25, 10), 3);
    assert_eq!(count_pages(20, 10), 2);
    assert_eq!(count_pages(1, 10), 1);
    assert_eq!(count_pages(0, 10), 0);
    assert_eq!(count_pages(7, 1), 7);
    assert_eq!(count_pages(usize::MAX, 1), usize::MAX);
    assert_eq!(count_pages(usize::MAX, usize::MAX), 1);
}

#[test]
fn a_page_covers_its_run_of_items() {
    let all = items(25);
    let first = paginate(&all, 10, 1).unwrap();
    assert_eq!(numbers(&first), (0..10).map(|i| i.to_string()).collect::<Vec<_>>());
    let second = paginate(&all, 10, 2).unwrap();
    assert_eq!(numbers(&second), (10..20).map(|i| i.to_string()).collect::<Vec<_>>());
}

#[test]
fn the_last_page_holds_what_is_left() {
    let all = items(25);
    let last = paginate(&all, 10, 3).unwrap();
    assert_eq!(last.len(), 25 - (3 - 1) * 10);
    assert_eq!(numbers(&last), vec!["20", "21", "22", "23", "24"]);
    let all = items(20);
    assert_eq!(paginate(&all, 10, 2).unwrap().len(), 10);
}

#[test]
fn there_is_no_page_behind_the_last() {
    let all = items(25);
    assert!(paginate(&all, 10, 4).is_none());
    assert!(paginate(&all, 10, usize::MAX).is_none());
    let all = items(20);
    assert!(paginate(&all, 10, 3).is_none());
}

#[test]
fn there_is_no_page_zero() {
    assert!(paginate(&items(5), 10, 0).is_none());
}

#[test]
fn an_empty_result_set_has_no_page() {
    assert!(paginate(&items(0), 10, 1).is_none());
}

#[test]
fn pages_agree_with_chunks() {
    for total in 0..13usize {
        let all = items(total);
        for size in 1..6usize {
            for index in 1..8usize {
                let expected = all.chunks(size).nth(index - 1).map(numbers);
                let got = paginate(&all, size, index).map(|p| numbers(&p));
                assert_eq!(got, expected, "total {} size {} index {}", total, size, index);
            }
        }
    }
}
