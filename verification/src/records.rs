//! The data model the engine renders from: issue records, their
//! supplementary links, and the summary shape a listing works on.

use vstd::prelude::*;
use crate::status::{BugOrder, BugStatus};

verus! {

/// A supplementary link attached to a record.
pub struct BugLink {
    pub id: u64,
    pub url: String,
    pub title: String,
}

pub struct BugLinkView {
    pub id: u64,
    pub url: Seq<char>,
    pub title: Seq<char>,
}

impl View for BugLink {
    type V = BugLinkView;

    open spec fn view(&self) -> BugLinkView {
        BugLinkView { id: self.id, url: self.url@, title: self.title@ }
    }
}

impl BugLink {
    pub fn duplicate(&self) -> (r: Self)
        ensures
            r@ == self@,
    {
        BugLink { id: self.id, url: self.url.clone(), title: self.title.clone() }
    }
}

/// The slice of a record a listing needs: enough to format one line and to
/// filter and order the result set.
pub struct BugSummary {
    pub id: u64,
    pub title: String,
    pub status: BugStatus,
    pub legacy: bool,
    pub timestamp: i64,
}

pub struct BugSummaryView {
    pub id: u64,
    pub title: Seq<char>,
    pub status: BugStatus,
    pub legacy: bool,
    pub timestamp: i64,
}

impl View for BugSummary {
    type V = BugSummaryView;

    open spec fn view(&self) -> BugSummaryView {
        BugSummaryView {
            id: self.id,
            title: self.title@,
            status: self.status,
            legacy: self.legacy,
            timestamp: self.timestamp,
        }
    }
}

impl BugSummary {
    pub fn duplicate(&self) -> (r: Self)
        ensures
            r@ == self@,
    {
        BugSummary {
            id: self.id,
            title: self.title.clone(),
            status: self.status,
            legacy: self.legacy,
            timestamp: self.timestamp,
        }
    }
}

/// A full issue record, as the detail view shows it.
pub struct BugReport {
    pub id: u64,
    pub title: String,
    pub status: BugStatus,
    pub legacy: bool,
    pub links: Vec<BugLink>,
    /// Creation time, in seconds since the epoch.
    pub timestamp: i64,
    /// Channel of the originating message.
    pub channel_id: u64,
    /// The originating message itself.
    pub message_id: u64,
}

pub struct BugReportView {
    pub id: u64,
    pub title: Seq<char>,
    pub status: BugStatus,
    pub legacy: bool,
    pub links: Seq<BugLinkView>,
    pub timestamp: i64,
    pub channel_id: u64,
    pub message_id: u64,
}

impl View for BugReport {
    type V = BugReportView;

    open spec fn view(&self) -> BugReportView {
        BugReportView {
            id: self.id,
            title: self.title@,
            status: self.status,
            legacy: self.legacy,
            links: self.links@.map_values(|l: BugLink| l@),
            timestamp: self.timestamp,
            channel_id: self.channel_id,
            message_id: self.message_id,
        }
    }
}

/// The immutable part of a listing request; the page number moves while a
/// session is running, everything else is fixed when it starts.
pub struct ListRequest {
    pub status: Option<BugStatus>,
    pub legacy: Option<bool>,
    pub order: BugOrder,
    pub page: u32,
    pub limit: u32,
}

impl ListRequest {
    /// Every fetch starts from a first-or-later page and a positive window.
    pub open spec fn wf(self) -> bool {
        self.page >= 1 && self.limit >= 1
    }
}

} // verus!
