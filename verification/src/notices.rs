//! Reply texts of the tracker commands: success confirmations and
//! corrective notices, each built from the values it reports.

use vstd::prelude::*;
use crate::numfmt::{spec_decimal, u64_string};
use crate::status::BugStatus;

verus! {

/// `Tracking bug LOTR-{id} (priority: {status})`, the confirmation of a
/// newly tracked record.
pub open spec fn spec_tracking_notice(id: u64, status: BugStatus) -> Seq<char> {
    "Tracking bug LOTR-"@ + spec_decimal(id as nat) + " (priority: `"@ + status.spec_name()
        + "`)"@
}

pub fn tracking_notice(id: u64, status: BugStatus) -> (r: String)
    ensures
        r@ == spec_tracking_notice(id, status),
{
    let r = "Tracking bug LOTR-".to_owned().concat(u64_string(id).as_str()).concat(
        " (priority: `",
    ).concat(status.name()).concat("`)");
    proof {
        assert(r@ =~= spec_tracking_notice(id, status));
    }
    r
}

/// `Status changed for LOTR-{id} from {old} to {new}!`.
pub open spec fn spec_status_changed_notice(id: u64, from: BugStatus, to: BugStatus) -> Seq<
    char,
> {
    "Status changed for LOTR-"@ + spec_decimal(id as nat) + " from `"@ + from.spec_name() + "` to `"@
        + to.spec_name() + "`!"@
}

pub fn status_changed_notice(id: u64, from: BugStatus, to: BugStatus) -> (r: String)
    ensures
        r@ == spec_status_changed_notice(id, from, to),
{
    let r = "Status changed for LOTR-".to_owned().concat(u64_string(id).as_str()).concat(
        " from `",
    ).concat(from.name()).concat("` to `").concat(to.name()).concat("`!");
    proof {
        assert(r@ =~= spec_status_changed_notice(id, from, to));
    }
    r
}

/// `LOTR-{id} has been marked as {status}.`, after a direct resolve or
/// close command.
pub open spec fn spec_marked_notice(id: u64, status: BugStatus) -> Seq<char> {
    "LOTR-"@ + spec_decimal(id as nat) + " has been marked as "@ + status.spec_name() + "."@
}

pub fn marked_notice(id: u64, status: BugStatus) -> (r: String)
    ensures
        r@ == spec_marked_notice(id, status),
{
    let r = "LOTR-".to_owned().concat(u64_string(id).as_str()).concat(
        " has been marked as ",
    ).concat(status.name()).concat(".");
    proof {
        assert(r@ =~= spec_marked_notice(id, status));
    }
    r
}

/// `The bug LOTR-{id} does not exist!`.
pub open spec fn spec_missing_bug_notice(id: u64) -> Seq<char> {
    "The bug LOTR-"@ + spec_decimal(id as nat) + " does not exist!"@
}

pub fn missing_bug_notice(id: u64) -> (r: String)
    ensures
        r@ == spec_missing_bug_notice(id),
{
    let r = "The bug LOTR-".to_owned().concat(u64_string(id).as_str()).concat(" does not exist!");
    proof {
        assert(r@ =~= spec_missing_bug_notice(id));
    }
    r
}

/// `Added link #{link} to LOTR-{id}`.
pub open spec fn spec_link_added_notice(link_id: u64, bug_id: u64) -> Seq<char> {
    "Added link #"@ + spec_decimal(link_id as nat) + " to LOTR-"@ + spec_decimal(bug_id as nat)
}

pub fn link_added_notice(link_id: u64, bug_id: u64) -> (r: String)
    ensures
        r@ == spec_link_added_notice(link_id, bug_id),
{
    let r = "Added link #".to_owned().concat(u64_string(link_id).as_str()).concat(
        " to LOTR-",
    ).concat(u64_string(bug_id).as_str());
    proof {
        assert(r@ =~= spec_link_added_notice(link_id, bug_id));
    }
    r
}

/// `Successfully removed link #{link} from LOTR-{id}`.
pub open spec fn spec_link_removed_notice(link_id: u64, bug_id: u64) -> Seq<char> {
    "Successfully removed link #"@ + spec_decimal(link_id as nat) + " from LOTR-"@ + spec_decimal(
        bug_id as nat,
    )
}

pub fn link_removed_notice(link_id: u64, bug_id: u64) -> (r: String)
    ensures
        r@ == spec_link_removed_notice(link_id, bug_id),
{
    let r = "Successfully removed link #".to_owned().concat(u64_string(link_id).as_str()).concat(
        " from LOTR-",
    ).concat(u64_string(bug_id).as_str());
    proof {
        assert(r@ =~= spec_link_removed_notice(link_id, bug_id));
    }
    r
}

/// `Link #{link} does not exist in LOTR-{id}`.
pub open spec fn spec_link_missing_notice(link_id: u64, bug_id: u64) -> Seq<char> {
    "Link #"@ + spec_decimal(link_id as nat) + " does not exist in LOTR-"@ + spec_decimal(
        bug_id as nat,
    )
}

pub fn link_missing_notice(link_id: u64, bug_id: u64) -> (r: String)
    ensures
        r@ == spec_link_missing_notice(link_id, bug_id),
{
    let r = "Link #".to_owned().concat(u64_string(link_id).as_str()).concat(
        " does not exist in LOTR-",
    ).concat(u64_string(bug_id).as_str());
    proof {
        assert(r@ =~= spec_link_missing_notice(link_id, bug_id));
    }
    r
}

/// `LOTR-{id} has been changed from {renewed to legacy | legacy to
/// renewed}`; the direction names the edition the record now carries.
pub open spec fn spec_edition_toggled_notice(id: u64, legacy_now: bool) -> Seq<char> {
    "LOTR-"@ + spec_decimal(id as nat) + " has been changed from "@ + (if legacy_now {
        "renewed to legacy"@
    } else {
        "legacy to renewed"@
    })
}

pub fn edition_toggled_notice(id: u64, legacy_now: bool) -> (r: String)
    ensures
        r@ == spec_edition_toggled_notice(id, legacy_now),
{
    let tail: &'static str = if legacy_now {
        "renewed to legacy"
    } else {
        "legacy to renewed"
    };
    let r = "LOTR-".to_owned().concat(u64_string(id).as_str()).concat(
        " has been changed from ",
    ).concat(tail);
    proof {
        assert(r@ =~= spec_edition_toggled_notice(id, legacy_now));
    }
    r
}

/// `Successfully changed the title of LOTR-{id}`.
pub open spec fn spec_renamed_notice(id: u64) -> Seq<char> {
    "Successfully changed the title of LOTR-"@ + spec_decimal(id as nat)
}

pub fn renamed_notice(id: u64) -> (r: String)
    ensures
        r@ == spec_renamed_notice(id),
{
    let r = "Successfully changed the title of LOTR-".to_owned().concat(u64_string(id).as_str());
    proof {
        assert(r@ =~= spec_renamed_notice(id));
    }
    r
}

/// `You must specify a new title for LOTR-{id}`.
pub open spec fn spec_rename_needed_notice(id: u64) -> Seq<char> {
    "You must specify a new title for LOTR-"@ + spec_decimal(id as nat)
}

pub fn rename_needed_notice(id: u64) -> (r: String)
    ensures
        r@ == spec_rename_needed_notice(id),
{
    let r = "You must specify a new title for LOTR-".to_owned().concat(u64_string(id).as_str());
    proof {
        assert(r@ =~= spec_rename_needed_notice(id));
    }
    r
}

/// `` `{raw}` is not a valid bug id!``, echoing the rejected argument.
pub open spec fn spec_invalid_bug_id_notice(raw: Seq<char>) -> Seq<char> {
    "`"@ + raw + "` is not a valid bug id!"@
}

pub fn invalid_bug_id_notice(raw: &str) -> (r: String)
    ensures
        r@ == spec_invalid_bug_id_notice(raw@),
{
    let r = "`".to_owned().concat(raw).concat("` is not a valid bug id!");
    proof {
        assert(r@ =~= spec_invalid_bug_id_notice(raw@));
    }
    r
}

/// `` `{raw}` is not a valid link id!``, echoing the rejected argument.
pub open spec fn spec_invalid_link_id_notice(raw: Seq<char>) -> Seq<char> {
    "`"@ + raw + "` is not a valid link id!"@
}

pub fn invalid_link_id_notice(raw: &str) -> (r: String)
    ensures
        r@ == spec_invalid_link_id_notice(raw@),
{
    let r = "`".to_owned().concat(raw).concat("` is not a valid link id!");
    proof {
        assert(r@ =~= spec_invalid_link_id_notice(raw@));
    }
    r
}

} // verus!
