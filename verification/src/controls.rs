//! Interactive controls attached to a rendered message: their stable
//! identifiers, styles, and the builders the two views share.

use vstd::prelude::*;
use crate::text::str_eq;

verus! {

/// Stable identifier carried by a clickable control. Navigation intents move
/// the page of a list view; mutation intents change a record's status from a
/// detail view.
#[derive(Clone, Copy, PartialEq, Eq, Structural, Debug)]
pub enum ControlId {
    PreviousPage,
    NextPage,
    ResolveBug,
    CloseBug,
}

impl ControlId {
    pub open spec fn spec_custom_id(self) -> Seq<char> {
        match self {
            ControlId::PreviousPage => "previous_page"@,
            ControlId::NextPage => "next_page"@,
            ControlId::ResolveBug => "resolve_bug"@,
            ControlId::CloseBug => "close_bug"@,
        }
    }

    /// The identifier string sent to and received from the chat surface.
    pub fn custom_id(self) -> (r: &'static str)
        ensures
            r@ == self.spec_custom_id(),
    {
        match self {
            ControlId::PreviousPage => "previous_page",
            ControlId::NextPage => "next_page",
            ControlId::ResolveBug => "resolve_bug",
            ControlId::CloseBug => "close_bug",
        }
    }

    pub open spec fn is_navigation(self) -> bool {
        self == ControlId::PreviousPage || self == ControlId::NextPage
    }

    pub open spec fn is_mutation(self) -> bool {
        self == ControlId::ResolveBug || self == ControlId::CloseBug
    }
}

/// Maps a received identifier string back to the control it belongs to;
/// anything the engine never emits is rejected.
pub fn parse_control_id(s: &str) -> (r: Option<ControlId>)
    ensures
        match r {
            Some(id) => s@ == id.spec_custom_id(),
            None => forall|id: ControlId| s@ != #[trigger] id.spec_custom_id(),
        },
{
    if str_eq(s, "previous_page") {
        Some(ControlId::PreviousPage)
    } else if str_eq(s, "next_page") {
        Some(ControlId::NextPage)
    } else if str_eq(s, "resolve_bug") {
        Some(ControlId::ResolveBug)
    } else if str_eq(s, "close_bug") {
        Some(ControlId::CloseBug)
    } else {
        None
    }
}

/// Visual style of a control, mirroring the chat surface's button styles.
#[derive(Clone, Copy, PartialEq, Eq, Structural, Debug)]
pub enum ControlStyle {
    Secondary,
    Success,
    Danger,
    Link,
}

/// One clickable control. A link-out control carries a url and no
/// identifier; every other control carries an identifier and no url.
pub struct Control {
    pub style: ControlStyle,
    pub label: String,
    pub ident: Option<ControlId>,
    pub emoji: Option<String>,
    pub url: Option<String>,
    pub disabled: bool,
}

pub struct ControlView {
    pub style: ControlStyle,
    pub label: Seq<char>,
    pub ident: Option<ControlId>,
    pub emoji: Option<Seq<char>>,
    pub url: Option<Seq<char>>,
    pub disabled: bool,
}

impl View for Control {
    type V = ControlView;

    open spec fn view(&self) -> ControlView {
        ControlView {
            style: self.style,
            label: self.label@,
            ident: self.ident,
            emoji: match self.emoji {
                Some(e) => Some(e@),
                None => None,
            },
            url: match self.url {
                Some(u) => Some(u@),
                None => None,
            },
            disabled: self.disabled,
        }
    }
}

impl ControlView {
    /// A control that can request a status change.
    pub open spec fn is_mutating(self) -> bool {
        match self.ident {
            Some(id) => id.is_mutation(),
            None => false,
        }
    }
}

/// Number of mutating controls in a control row.
pub open spec fn spec_mutating_count(controls: Seq<ControlView>) -> nat {
    controls.filter(|c: ControlView| c.is_mutating()).len()
}

/// The "previous" navigation control; disabled on the first page.
pub open spec fn spec_previous_control(page: u32) -> ControlView {
    ControlView {
        style: ControlStyle::Secondary,
        label: "Previous"@,
        ident: Some(ControlId::PreviousPage),
        emoji: Some("⬅️"@),
        url: None,
        disabled: page <= 1,
    }
}

/// The "next" navigation control; disabled once the window reaches the end
/// of the result set.
pub open spec fn spec_next_control(page: u32, limit: u32, total: u32) -> ControlView {
    ControlView {
        style: ControlStyle::Secondary,
        label: "Next"@,
        ident: Some(ControlId::NextPage),
        emoji: Some("➡️"@),
        url: None,
        disabled: (page as int) * (limit as int) >= total,
    }
}

/// The "previous" control is disabled exactly on the first page, and the
/// "next" control exactly when the current window already reaches the end
/// of the result set.
pub proof fn lemma_nav_flags(page: u32, limit: u32, total: u32)
    requires
        page >= 1,
    ensures
        spec_previous_control(page).disabled <==> page == 1,
        spec_next_control(page, limit, total).disabled <==> (page as int) * (limit as int)
            >= total,
{
}

pub fn previous_control(page: u32) -> (r: Control)
    requires
        page >= 1,
    ensures
        r@ == spec_previous_control(page),
{
    Control {
        style: ControlStyle::Secondary,
        label: "Previous".to_owned(),
        ident: Some(ControlId::PreviousPage),
        emoji: Some("⬅️".to_owned()),
        url: None,
        disabled: crate::pagination::previous_disabled(page),
    }
}

pub fn next_control(page: u32, limit: u32, total: u32) -> (r: Control)
    ensures
        r@ == spec_next_control(page, limit, total),
{
    Control {
        style: ControlStyle::Secondary,
        label: "Next".to_owned(),
        ident: Some(ControlId::NextPage),
        emoji: Some("➡️".to_owned()),
        url: None,
        disabled: crate::pagination::next_disabled(page, limit, total),
    }
}

/// The "resolve" mutation control.
pub open spec fn spec_resolve_control() -> ControlView {
    ControlView {
        style: ControlStyle::Success,
        label: "Resolve"@,
        ident: Some(ControlId::ResolveBug),
        emoji: None,
        url: None,
        disabled: false,
    }
}

/// The "close" mutation control.
pub open spec fn spec_close_control() -> ControlView {
    ControlView {
        style: ControlStyle::Danger,
        label: "Close"@,
        ident: Some(ControlId::CloseBug),
        emoji: None,
        url: None,
        disabled: false,
    }
}

/// The link-out control pointing at the originating message.
pub open spec fn spec_link_control(url: Seq<char>) -> ControlView {
    ControlView {
        style: ControlStyle::Link,
        label: "Message link"@,
        ident: None,
        emoji: None,
        url: Some(url),
        disabled: false,
    }
}

pub fn resolve_control() -> (r: Control)
    ensures
        r@ == spec_resolve_control(),
{
    Control {
        style: ControlStyle::Success,
        label: "Resolve".to_owned(),
        ident: Some(ControlId::ResolveBug),
        emoji: None,
        url: None,
        disabled: false,
    }
}

pub fn close_control() -> (r: Control)
    ensures
        r@ == spec_close_control(),
{
    Control {
        style: ControlStyle::Danger,
        label: "Close".to_owned(),
        ident: Some(ControlId::CloseBug),
        emoji: None,
        url: None,
        disabled: false,
    }
}

pub fn link_control(url: &str) -> (r: Control)
    ensures
        r@ == spec_link_control(url@),
{
    Control {
        style: ControlStyle::Link,
        label: "Message link".to_owned(),
        ident: None,
        emoji: None,
        url: Some(url.to_owned()),
        disabled: false,
    }
}

} // verus!
