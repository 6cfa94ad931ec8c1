//! The session state machine: how a running list or detail session reacts
//! to the next collected event. The loop around it performs the directives
//! (render, wait, acknowledge); every decision stands here.

use vstd::prelude::*;
use crate::controls::ControlId;
use crate::records::ListRequest;
use crate::status::BugStatus;

verus! {

/// Sliding inactivity window of a session, in seconds: every wait for the
/// next event starts a fresh window of this length, whatever the outcome of
/// the previous one was.
pub const EVENT_WINDOW_SECS: u64 = 60;

/// Outcome of one wait for the next control click scoped to the session's
/// message: either the window elapsed with no event, or some actor clicked
/// a control.
#[derive(Clone, Copy, PartialEq, Eq, Structural, Debug)]
pub enum SessionEvent {
    Expired,
    Click { actor: u64, control: ControlId },
}

/// Whether an actor may mutate records: the bot owner always may; an admin
/// may from inside the home guild.
pub fn can_mutate(actor: u64, bot_owner: u64, in_home_guild: bool, is_admin: bool) -> (r: bool)
    ensures
        r == (actor == bot_owner || (in_home_guild && is_admin)),
{
    actor == bot_owner || (in_home_guild && is_admin)
}

/// Target status a control requests; exactly the two mutation controls
/// request one, and both targets are terminal.
pub open spec fn spec_requested_status(control: ControlId) -> Option<BugStatus> {
    match control {
        ControlId::ResolveBug => Some(BugStatus::Resolved),
        ControlId::CloseBug => Some(BugStatus::Closed),
        _ => None,
    }
}

#[verifier::when_used_as_spec(spec_requested_status)]
pub fn requested_status(control: ControlId) -> (r: Option<BugStatus>)
    ensures
        r == spec_requested_status(control),
{
    match control {
        ControlId::ResolveBug => Some(BugStatus::Resolved),
        ControlId::CloseBug => Some(BugStatus::Closed),
        _ => None,
    }
}

/// A control requests a status only if that status is terminal, and each
/// terminal status is requested by one of the controls: any record whose
/// status is still open can be sent to either terminal variant.
pub proof fn lemma_requested_status_terminal()
    ensures
        forall|c: ControlId| (#[trigger] spec_requested_status(c)) matches Some(t)
            ==> t.spec_is_terminal(),
        spec_requested_status(ControlId::ResolveBug) == Some(BugStatus::Resolved),
        spec_requested_status(ControlId::CloseBug) == Some(BugStatus::Closed),
{
}

/// A running list session: who owns it and what it is currently showing.
/// Only the page of the request moves while the session runs.
pub struct ListSession {
    /// The actor whose clicks drive the session.
    pub owner: u64,
    pub request: ListRequest,
    pub ended: bool,
}

impl ListSession {
    pub open spec fn wf(self) -> bool {
        self.request.wf()
    }
}

/// What the loop must do after a list session consumed one event.
#[derive(Clone, Copy, PartialEq, Eq, Structural, Debug)]
pub enum ListDirective {
    /// Edit the rendered message so it keeps no control, then stop.
    EndSession,
    /// Send the clicking actor a private, non-persistent denial and keep
    /// waiting; the inactivity window starts anew.
    PrivateDenial,
    /// Fetch the window for the session's (possibly moved) page again and
    /// re-render the existing message in place; if the page turned out to
    /// be out of range, acknowledge with the corrective notice and stop.
    Rerender,
}

/// Consumes one event of a list session.
///
/// Expiry ends the session with its controls stripped. A non-owner click
/// never mutates the session and is answered with a private denial. An
/// owner click moves the page: "previous" never takes it below one (a stale
/// click of the disabled control on the first page re-renders that page),
/// "next" advances it, and any mutation-control click re-renders the same
/// page. Every click, whoever sent it, leaves the loop waiting inside a
/// fresh inactivity window.
pub fn list_step(s: &mut ListSession, event: SessionEvent) -> (d: ListDirective)
    requires
        old(s).wf(),
        !old(s).ended,
    ensures
        final(s).wf(),
        final(s).owner == old(s).owner,
        final(s).request.status == old(s).request.status,
        final(s).request.legacy == old(s).request.legacy,
        final(s).request.order == old(s).request.order,
        final(s).request.limit == old(s).request.limit,
        event == SessionEvent::Expired ==> d == ListDirective::EndSession && final(s).ended
            && final(s).request.page == old(s).request.page,
        event matches SessionEvent::Click { actor, control } ==> if actor != old(s).owner {
            *final(s) == *old(s) && d == ListDirective::PrivateDenial && !final(s).ended
        } else {
            d == ListDirective::Rerender && !final(s).ended && final(s).request.page
                == (match control {
                ControlId::PreviousPage => if old(s).request.page > 1 {
                    (old(s).request.page - 1) as u32
                } else {
                    1u32
                },
                ControlId::NextPage => if old(s).request.page < u32::MAX {
                    (old(s).request.page + 1) as u32
                } else {
                    u32::MAX
                },
                _ => old(s).request.page,
            })
        },
{
    match event {
        SessionEvent::Expired => {
            s.ended = true;
            ListDirective::EndSession
        },
        SessionEvent::Click { actor, control } => {
            if actor != s.owner {
                ListDirective::PrivateDenial
            } else {
                match control {
                    ControlId::PreviousPage => {
                        if s.request.page > 1 {
                            s.request.page = s.request.page - 1;
                        }
                    },
                    ControlId::NextPage => {
                        if s.request.page < u32::MAX {
                            s.request.page = s.request.page + 1;
                        }
                    },
                    _ => {},
                }
                ListDirective::Rerender
            }
        },
    }
}

/// Ends a session after a failed re-render (out-of-range page or oversized
/// body): the triggering event was acknowledged with a corrective notice and
/// no further event is awaited.
pub fn list_end(s: &mut ListSession)
    ensures
        *final(s) == (ListSession { ended: true, ..*old(s) }),
{
    s.ended = true;
}

/// A running detail session. It exists only while mutating controls are
/// shown: the status was non-terminal and the owner was authorized when the
/// view was rendered.
pub struct DetailSession {
    pub owner: u64,
    /// Identifier of the record on display.
    pub bug_id: u64,
    pub status: BugStatus,
    pub ended: bool,
}

impl DetailSession {
    pub open spec fn wf(self) -> bool {
        !self.status.spec_is_terminal()
    }
}

/// What the loop must do after a detail session consumed one event.
#[derive(Clone, Copy, PartialEq, Eq, Structural, Debug)]
pub enum DetailDirective {
    /// Edit the rendered message so it keeps no control, then stop; the
    /// status is left as it stands.
    EndSession,
    /// Send the clicking actor a private, non-persistent denial and keep
    /// waiting; the inactivity window starts anew.
    PrivateDenial,
    /// Apply the transition at the store, re-render the view with its
    /// controls stripped, and stop: one mutation per session.
    ApplyTransition { target: BugStatus },
}

/// Consumes one event of a detail session.
///
/// Expiry strips the controls with no status change. A non-owner click
/// never mutates anything and is answered with a private denial. An owner
/// click selects its terminal target status, which is applied and ends the
/// session. The view only ever offered the two mutation controls to the
/// owner, so an owner click carries a mutation identifier.
pub fn detail_step(s: &mut DetailSession, event: SessionEvent) -> (d: DetailDirective)
    requires
        old(s).wf(),
        !old(s).ended,
        event matches SessionEvent::Click { actor, control } ==> (actor == old(s).owner
            ==> control.is_mutation()),
    ensures
        final(s).owner == old(s).owner,
        final(s).bug_id == old(s).bug_id,
        event == SessionEvent::Expired ==> d == DetailDirective::EndSession && final(s).ended
            && final(s).status == old(s).status,
        event matches SessionEvent::Click { actor, control } ==> if actor != old(s).owner {
            *final(s) == *old(s) && d == DetailDirective::PrivateDenial && !final(s).ended
        } else {
            &&& spec_requested_status(control) matches Some(t)
            &&& d == DetailDirective::ApplyTransition {
                target: spec_requested_status(control)->Some_0,
            }
            &&& final(s).status == spec_requested_status(control)->Some_0
            &&& final(s).ended
        },
        d matches DetailDirective::ApplyTransition { target } ==> target.spec_is_terminal()
            && !old(s).status.spec_is_terminal(),
{
    match event {
        SessionEvent::Expired => {
            s.ended = true;
            DetailDirective::EndSession
        },
        SessionEvent::Click { actor, control } => {
            if actor != s.owner {
                DetailDirective::PrivateDenial
            } else {
                let target = match control {
                    ControlId::ResolveBug => BugStatus::Resolved,
                    _ => BugStatus::Closed,
                };
                s.status = target;
                s.ended = true;
                DetailDirective::ApplyTransition { target }
            }
        },
    }
}

} // verus!
