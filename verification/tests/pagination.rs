use bugtracker::errors::EngineError;
use bugtracker::pagination::{check_page, next_disabled, page_out_of_range, previous_disabled, total_pages};
use bugtracker::records::{BugSummary, ListRequest};
use bugtracker::status::{BugOrder, BugStatus};

fn summary(id: u64, timestamp: i64) -> BugSummary {
    BugSummary {
        id,
        title: format!("issue {}", id),
        status: BugStatus::Medium,
        legacy: false,
        timestamp,
    }
}

fn records(n: u64) -> Vec<BugSummary> {
    let mut v = Vec::new();
    let mut id = 1u64;
    while id <= n {
        v.push(summary(id, id as i64));
        id += 1;
    }
    v
}

fn request(page: u32, limit: u32) -> ListRequest {
    ListRequest {
        status: None,
        legacy: None,
        order: BugOrder::Chronological(false),
        page,
        limit,
    }
}

#[test]
fn footer_page_count_rounds_up() {
    assert_eq!(total_pages(23, 10), 3);
    assert_eq!(total_pages(20, 10), 2);
    assert_eq!(total_pages(21, 10), 3);
    assert_eq!(total_pages(1, 10), 1);
    assert_eq!(total_pages(0, 10), 1);
    assert_eq!(total_pages(0, 1), 1);
    assert_eq!(total_pages(7, 7), 1);
    assert_eq!(total_pages(8, 7), 2);
}

#[test]
fn out_of_range_exactly_when_window_past_end() {
    assert!(!page_out_of_range(1, 10, 23));
    assert!(!page_out_of_range(3, 10, 23));
    assert!(page_out_of_range(4, 10, 23));
    assert!(page_out_of_range(2, 10, 10));
    assert!(!page_out_of_range(1, 10, 0));
    assert!(page_out_of_range(2, 10, 0));
}

#[test]
fn check_page_reports_page_out_of_range() {
    assert_eq!(check_page(4, 10, 23), Err(EngineError::PageOutOfRange));
    assert_eq!(check_page(3, 10, 23), Ok(()));
    assert_eq!(check_page(1, 5, 0), Ok(()));
    assert_eq!(check_page(2, 5, 0), Err(EngineError::PageOutOfRange));
}

#[test]
fn navigation_flags_match_page_position() {
    assert!(previous_disabled(1));
    assert!(!previous_disabled(2));
    assert!(!next_disabled(1, 10, 23));
    assert!(!next_disabled(2, 10, 23));
    assert!(next_disabled(3, 10, 23));
    assert!(next_disabled(1, 10, 10));
    assert!(next_disabled(1, 10, 0));
}

#[test]
fn window_is_capped_by_limit() {
    let recs = records(23);
    for page in 1..=3u32 {
        let (items, total) = bugtracker::query::list_page(&recs, &request(page, 10));
        assert_eq!(total, 23);
        assert!(items.len() <= 10);
    }
    let (items, _) = bugtracker::query::list_page(&recs, &request(1, 100));
    assert_eq!(items.len(), 23);
}

#[test]
fn first_page_of_twenty_three() {
    let recs = records(23);
    let (items, total) = bugtracker::query::list_page(&recs, &request(1, 10));
    assert_eq!(total, 23);
    assert_eq!(items.len(), 10);
    let payload = bugtracker::listview::render_list(&request(1, 10), &items, total).unwrap();
    assert_eq!(payload.footer, "Page 1/3");
    assert_eq!(payload.controls.len(), 2);
    assert!(payload.controls[0].disabled);
    assert!(!payload.controls[1].disabled);
}

#[test]
fn third_page_of_twenty_three() {
    let recs = records(23);
    let (items, total) = bugtracker::query::list_page(&recs, &request(3, 10));
    assert_eq!(total, 23);
    assert_eq!(items.len(), 3);
    let payload = bugtracker::listview::render_list(&request(3, 10), &items, total).unwrap();
    assert_eq!(payload.footer, "Page 3/3");
    assert!(!payload.controls[0].disabled);
    assert!(payload.controls[1].disabled);
}

#[test]
fn fourth_page_of_twenty_three_is_out_of_range() {
    let recs = records(23);
    let (items, total) = bugtracker::query::list_page(&recs, &request(4, 10));
    assert_eq!(total, 23);
    assert_eq!(items.len(), 0);
    let outcome = bugtracker::listview::render_list(&request(4, 10), &items, total);
    match outcome {
        Err(e) => assert_eq!(e, EngineError::PageOutOfRange),
        Ok(_) => panic!("a page past the end must be rejected"),
    }
}
