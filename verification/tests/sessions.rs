use bugtracker::controls::ControlId;
use bugtracker::detailview::offers_mutation;
use bugtracker::records::ListRequest;
use bugtracker::session::{
    can_mutate, detail_step, list_step, requested_status, DetailDirective, DetailSession,
    ListDirective, ListSession, SessionEvent,
};
use bugtracker::status::{BugOrder, BugStatus};

fn list_session(page: u32) -> ListSession {
    ListSession {
        owner: 100,
        request: ListRequest {
            status: None,
            legacy: None,
            order: BugOrder::Chronological(false),
            page,
            limit: 10,
        },
        ended: false,
    }
}

fn detail_session(status: BugStatus) -> DetailSession {
    DetailSession {
        owner: 100,
        bug_id: 12,
        status,
        ended: false,
    }
}

#[test]
fn expiry_ends_list_session_with_stripped_controls() {
    let mut s = list_session(2);
    let d = list_step(&mut s, SessionEvent::Expired);
    assert_eq!(d, ListDirective::EndSession);
    assert!(s.ended);
    assert_eq!(s.request.page, 2);
}

#[test]
fn non_owner_click_never_mutates_and_gets_denial() {
    let mut s = list_session(2);
    let before_page = s.request.page;
    let d = list_step(
        &mut s,
        SessionEvent::Click {
            actor: 999,
            control: ControlId::NextPage,
        },
    );
    assert_eq!(d, ListDirective::PrivateDenial);
    assert!(!s.ended);
    assert_eq!(s.request.page, before_page);

    let mut t = detail_session(BugStatus::Medium);
    let d = detail_step(
        &mut t,
        SessionEvent::Click {
            actor: 999,
            control: ControlId::ResolveBug,
        },
    );
    assert_eq!(d, DetailDirective::PrivateDenial);
    assert!(!t.ended);
    assert_eq!(t.status, BugStatus::Medium);
}

#[test]
fn owner_navigation_moves_the_page() {
    let mut s = list_session(2);
    let d = list_step(
        &mut s,
        SessionEvent::Click {
            actor: 100,
            control: ControlId::NextPage,
        },
    );
    assert_eq!(d, ListDirective::Rerender);
    assert_eq!(s.request.page, 3);
    let d = list_step(
        &mut s,
        SessionEvent::Click {
            actor: 100,
            control: ControlId::PreviousPage,
        },
    );
    assert_eq!(d, ListDirective::Rerender);
    assert_eq!(s.request.page, 2);
}

#[test]
fn previous_on_first_page_stays_on_first_page() {
    let mut s = list_session(1);
    let d = list_step(
        &mut s,
        SessionEvent::Click {
            actor: 100,
            control: ControlId::PreviousPage,
        },
    );
    assert_eq!(d, ListDirective::Rerender);
    assert_eq!(s.request.page, 1);
    assert!(!s.ended);
}

#[test]
fn expiry_ends_detail_session_without_status_change() {
    let mut t = detail_session(BugStatus::High);
    let d = detail_step(&mut t, SessionEvent::Expired);
    assert_eq!(d, DetailDirective::EndSession);
    assert!(t.ended);
    assert_eq!(t.status, BugStatus::High);
}

#[test]
fn any_open_status_can_reach_either_terminal() {
    let open = [
        BugStatus::Low,
        BugStatus::Medium,
        BugStatus::High,
        BugStatus::Critical,
        BugStatus::ForgeVanilla,
    ];
    for status in open {
        let mut t = detail_session(status);
        let d = detail_step(
            &mut t,
            SessionEvent::Click {
                actor: 100,
                control: ControlId::ResolveBug,
            },
        );
        assert_eq!(
            d,
            DetailDirective::ApplyTransition {
                target: BugStatus::Resolved
            }
        );
        assert_eq!(t.status, BugStatus::Resolved);
        assert!(t.ended);

        let mut t = detail_session(status);
        let d = detail_step(
            &mut t,
            SessionEvent::Click {
                actor: 100,
                control: ControlId::CloseBug,
            },
        );
        assert_eq!(
            d,
            DetailDirective::ApplyTransition {
                target: BugStatus::Closed
            }
        );
        assert_eq!(t.status, BugStatus::Closed);
        assert!(t.ended);
    }
}

#[test]
fn resolve_click_resolves_and_strips_controls() {
    let bug_status = BugStatus::Medium;
    assert!(offers_mutation(bug_status, true));
    let mut t = detail_session(bug_status);
    let d = detail_step(
        &mut t,
        SessionEvent::Click {
            actor: 100,
            control: ControlId::ResolveBug,
        },
    );
    assert_eq!(
        d,
        DetailDirective::ApplyTransition {
            target: BugStatus::Resolved
        }
    );
    assert_eq!(t.status, BugStatus::Resolved);
    assert!(t.ended);
    assert!(!offers_mutation(t.status, true));
}

#[test]
fn requested_status_maps_mutations_only() {
    assert_eq!(
        requested_status(ControlId::ResolveBug),
        Some(BugStatus::Resolved)
    );
    assert_eq!(
        requested_status(ControlId::CloseBug),
        Some(BugStatus::Closed)
    );
    assert_eq!(requested_status(ControlId::PreviousPage), None);
    assert_eq!(requested_status(ControlId::NextPage), None);
}

#[test]
fn authorization_takes_owner_or_home_admin() {
    assert!(can_mutate(1, 1, false, false));
    assert!(can_mutate(5, 1, true, true));
    assert!(!can_mutate(5, 1, true, false));
    assert!(!can_mutate(5, 1, false, true));
    assert!(!can_mutate(5, 1, false, false));
}
