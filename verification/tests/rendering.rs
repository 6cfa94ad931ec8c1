use bugtracker::controls::{ControlId, ControlStyle};
use bugtracker::detailview::{offers_mutation, render_detail, SourceMessage};
use bugtracker::errors::EngineError;
use bugtracker::listview::render_list;
use bugtracker::records::{BugLink, BugReport, BugSummary, ListRequest};
use bugtracker::status::{BugOrder, BugStatus};

fn list_request(status: Option<BugStatus>, legacy: Option<bool>, page: u32, limit: u32) -> ListRequest {
    ListRequest {
        status,
        legacy,
        order: BugOrder::Chronological(false),
        page,
        limit,
    }
}

fn sample_bug(status: BugStatus) -> BugReport {
    BugReport {
        id: 12,
        title: "Water flows uphill".to_string(),
        status,
        legacy: false,
        links: Vec::new(),
        timestamp: 1_600_000_000,
        channel_id: 77,
        message_id: 88,
    }
}

#[test]
fn empty_window_renders_empty_state_text() {
    let req = list_request(Some(BugStatus::High), None, 1, 10);
    let payload = render_list(&req, &Vec::new(), 0).unwrap();
    assert_eq!(payload.body, "_No open bugs!_");
    assert!(!payload.body.is_empty());
    let req = list_request(None, None, 1, 10);
    let payload = render_list(&req, &Vec::new(), 0).unwrap();
    assert_eq!(payload.body, "_No bugs with this status!_");
    assert!(!payload.body.is_empty());
}

#[test]
fn list_title_names_filter_edition_and_total() {
    let one = vec![BugSummary {
        id: 3,
        title: "Door misplaced".to_string(),
        status: BugStatus::Medium,
        legacy: true,
        timestamp: 5,
    }];
    let req = list_request(Some(BugStatus::Medium), None, 1, 10);
    let payload = render_list(&req, &one, 23).unwrap();
    assert_eq!(payload.title, "🟨 Bug reports (Status: medium) (Total: 23)");
    assert_eq!(payload.body, "LOTR-3: Door misplaced [legacy]");

    let req = list_request(None, Some(true), 1, 10);
    let payload = render_list(&req, &one, 23).unwrap();
    assert_eq!(payload.title, "Open bug reports [legacy] (Total: 23)");
    assert_eq!(payload.body, "🟨 LOTR-3: Door misplaced");

    let req = list_request(None, Some(false), 1, 10);
    let payload = render_list(&req, &one, 2).unwrap();
    assert_eq!(payload.title, "Open bug reports [renewed] (Total: 2)");
}

#[test]
fn list_body_joins_lines_with_newlines() {
    let two = vec![
        BugSummary {
            id: 1,
            title: "First".to_string(),
            status: BugStatus::Low,
            legacy: false,
            timestamp: 1,
        },
        BugSummary {
            id: 2,
            title: "Second".to_string(),
            status: BugStatus::Critical,
            legacy: false,
            timestamp: 2,
        },
    ];
    let req = list_request(None, None, 1, 10);
    let payload = render_list(&req, &two, 2).unwrap();
    assert_eq!(payload.body, "🟦 LOTR-1: First\n🟥 LOTR-2: Second");
}

#[test]
fn oversized_body_is_content_too_large() {
    let mut items = Vec::new();
    for id in 0..50u64 {
        items.push(BugSummary {
            id,
            title: "x".repeat(100),
            status: BugStatus::Low,
            legacy: false,
            timestamp: id as i64,
        });
    }
    let req = list_request(None, None, 1, 50);
    let outcome = render_list(&req, &items, 50);
    match outcome {
        Err(e) => assert_eq!(e, EngineError::ContentTooLarge),
        Ok(_) => panic!("an oversized body must be rejected"),
    }
}

#[test]
fn detail_view_with_authorization_offers_both_mutations() {
    let bug = sample_bug(BugStatus::Medium);
    let source = Some(SourceMessage {
        content: "It really does".to_string(),
        author_name: "reporter".to_string(),
        image: None,
        link: "https://example.invalid/m/88".to_string(),
    });
    let with = offers_mutation(bug.status, true);
    assert!(with);
    let payload = render_detail(&bug, &source, with);
    assert_eq!(payload.title, "🟨 LOTR-12: Water flows uphill");
    assert_eq!(payload.body, "It really does");
    assert_eq!(payload.footer, "Status: medium • Submitted by reporter");
    assert_eq!(payload.controls.len(), 3);
    assert_eq!(payload.controls[0].style, ControlStyle::Link);
    assert_eq!(payload.controls[1].ident, Some(ControlId::ResolveBug));
    assert_eq!(payload.controls[2].ident, Some(ControlId::CloseBug));
}

#[test]
fn terminal_detail_view_offers_no_mutations() {
    let bug = sample_bug(BugStatus::Resolved);
    let with = offers_mutation(bug.status, true);
    assert!(!with);
    let payload = render_detail(&bug, &None, with);
    assert_eq!(payload.controls.len(), 0);
    assert_eq!(payload.footer, "Status: resolved");
    assert_eq!(payload.body, "");
}

#[test]
fn unauthorized_detail_view_offers_no_mutations() {
    let bug = sample_bug(BugStatus::Critical);
    assert!(!offers_mutation(bug.status, false));
}

#[test]
fn detail_links_render_as_labeled_field() {
    let mut bug = sample_bug(BugStatus::Low);
    bug.legacy = true;
    bug.links.push(BugLink {
        id: 1,
        url: "https://example.invalid/a".to_string(),
        title: "video".to_string(),
    });
    bug.links.push(BugLink {
        id: 2,
        url: "https://example.invalid/b".to_string(),
        title: "log".to_string(),
    });
    let payload = render_detail(&bug, &None, false);
    assert_eq!(payload.title, "🟦 LOTR-12: Water flows uphill [legacy]");
    let field = payload.field.unwrap();
    assert_eq!(field.name, "Additional information");
    assert_eq!(
        field.value,
        "#1: [video](https://example.invalid/a)\n#2: [log](https://example.invalid/b)"
    );
    assert_eq!(payload.timestamp, Some(1_600_000_000));
}

#[test]
fn stripping_controls_leaves_none() {
    let req = list_request(None, None, 1, 10);
    let one = vec![BugSummary {
        id: 9,
        title: "Lone".to_string(),
        status: BugStatus::High,
        legacy: false,
        timestamp: 9,
    }];
    let mut payload = render_list(&req, &one, 1).unwrap();
    assert_eq!(payload.controls.len(), 2);
    payload.strip_controls();
    assert_eq!(payload.controls.len(), 0);
    assert_eq!(payload.body, "🟧 LOTR-9: Lone");
}

#[test]
fn control_identifiers_round_trip() {
    let ids = [
        ControlId::PreviousPage,
        ControlId::NextPage,
        ControlId::ResolveBug,
        ControlId::CloseBug,
    ];
    for id in ids {
        let s = id.custom_id();
        assert_eq!(bugtracker::controls::parse_control_id(s), Some(id));
    }
    assert_eq!(bugtracker::controls::parse_control_id("open_menu"), None);
    assert_eq!(ControlId::PreviousPage.custom_id(), "previous_page");
    assert_eq!(ControlId::NextPage.custom_id(), "next_page");
    assert_eq!(ControlId::ResolveBug.custom_id(), "resolve_bug");
    assert_eq!(ControlId::CloseBug.custom_id(), "close_bug");
}
