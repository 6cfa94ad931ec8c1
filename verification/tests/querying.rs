use bugtracker::query::list_page;
use bugtracker::records::{BugSummary, ListRequest};
use bugtracker::status::{BugOrder, BugStatus};

fn record(id: u64, status: BugStatus, legacy: bool, timestamp: i64) -> BugSummary {
    BugSummary {
        id,
        title: format!("r{}", id),
        status,
        legacy,
        timestamp,
    }
}

fn mixed() -> Vec<BugSummary> {
    vec![
        record(1, BugStatus::Low, false, 10),
        record(2, BugStatus::Resolved, false, 20),
        record(3, BugStatus::Critical, true, 30),
        record(4, BugStatus::Medium, false, 40),
        record(5, BugStatus::Closed, true, 50),
        record(6, BugStatus::ForgeVanilla, false, 60),
        record(7, BugStatus::Medium, true, 70),
    ]
}

fn request(status: Option<BugStatus>, legacy: Option<bool>, order: BugOrder) -> ListRequest {
    ListRequest {
        status,
        legacy,
        order,
        page: 1,
        limit: 10,
    }
}

#[test]
fn open_listing_excludes_settled_and_base_game_records() {
    let (items, total) = list_page(
        &mixed(),
        &request(None, None, BugOrder::Chronological(false)),
    );
    assert_eq!(total, 4);
    let ids: Vec<u64> = items.iter().map(|b| b.id).collect();
    assert_eq!(ids, vec![7, 4, 3, 1]);
}

#[test]
fn status_filter_selects_one_status() {
    let (items, total) = list_page(
        &mixed(),
        &request(Some(BugStatus::Medium), None, BugOrder::Chronological(true)),
    );
    assert_eq!(total, 2);
    let ids: Vec<u64> = items.iter().map(|b| b.id).collect();
    assert_eq!(ids, vec![4, 7]);

    let (items, total) = list_page(
        &mixed(),
        &request(Some(BugStatus::Resolved), None, BugOrder::Chronological(true)),
    );
    assert_eq!(total, 1);
    assert_eq!(items[0].id, 2);
}

#[test]
fn edition_filter_splits_the_listing() {
    let (items, total) = list_page(
        &mixed(),
        &request(None, Some(true), BugOrder::Chronological(true)),
    );
    assert_eq!(total, 2);
    let ids: Vec<u64> = items.iter().map(|b| b.id).collect();
    assert_eq!(ids, vec![3, 7]);

    let (_, total) = list_page(
        &mixed(),
        &request(None, Some(false), BugOrder::Chronological(true)),
    );
    assert_eq!(total, 2);
}

#[test]
fn priority_order_ranks_by_weight() {
    let (items, _) = list_page(&mixed(), &request(None, None, BugOrder::Priority(false)));
    let weights: Vec<u32> = items.iter().map(|b| b.status.weight()).collect();
    let mut sorted = weights.clone();
    sorted.sort_by(|a, b| b.cmp(a));
    assert_eq!(weights, sorted);
    assert_eq!(items[0].status, BugStatus::Critical);

    let (items, _) = list_page(&mixed(), &request(None, None, BugOrder::Priority(true)));
    assert_eq!(items[0].status, BugStatus::Low);
}

#[test]
fn second_window_continues_where_the_first_ended() {
    let mut records = Vec::new();
    for id in 1..=7u64 {
        records.push(record(id, BugStatus::Low, false, id as i64));
    }
    let mut req = request(None, None, BugOrder::Chronological(true));
    req.limit = 3;
    req.page = 2;
    let (items, total) = list_page(&records, &req);
    assert_eq!(total, 7);
    let ids: Vec<u64> = items.iter().map(|b| b.id).collect();
    assert_eq!(ids, vec![4, 5, 6]);
    req.page = 3;
    let (items, _) = list_page(&records, &req);
    let ids: Vec<u64> = items.iter().map(|b| b.id).collect();
    assert_eq!(ids, vec![7]);
}
