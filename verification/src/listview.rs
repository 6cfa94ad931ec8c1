//! Rendering of the list view: title, newline-joined item lines or the
//! empty-state text, footer with the page count, and the two navigation
//! controls.

use vstd::prelude::*;
use crate::controls::{
    next_control, previous_control, spec_next_control, spec_previous_control, Control,
};
use crate::errors::EngineError;
use crate::numfmt::{spec_decimal, u32_string, u64_string};
use crate::pagination::{
    check_page, spec_page_out_of_range, spec_total_pages, total_pages,
};
use crate::payload::{Payload, PayloadView, BODY_CAP};
use crate::records::{BugSummary, BugSummaryView, ListRequest};
use crate::status::BugStatus;
use crate::text::{join_with, spec_join};

verus! {

/// Qualifier appended to a title when the listing is restricted to one
/// edition.
pub open spec fn spec_edition_tag(legacy: Option<bool>) -> Seq<char> {
    match legacy {
        Some(true) => " [legacy]"@,
        Some(false) => " [renewed]"@,
        None => Seq::empty(),
    }
}

fn edition_tag(legacy: Option<bool>) -> (r: &'static str)
    ensures
        r@ == spec_edition_tag(legacy),
{
    proof {
        reveal_strlit("");
    }
    match legacy {
        Some(true) => " [legacy]",
        Some(false) => " [renewed]",
        None => {
            proof {
                assert(""@ =~= Seq::<char>::empty());
            }
            ""
        },
    }
}

/// Tag appended to one item line: records of the legacy edition are marked
/// when the listing itself is not restricted to an edition.
pub open spec fn spec_item_tag(filter_legacy: Option<bool>, item_legacy: bool) -> Seq<char> {
    if filter_legacy is None && item_legacy {
        " [legacy]"@
    } else {
        Seq::empty()
    }
}

/// One formatted line of the listing. With a status filter the status is
/// clear from the title; without one, each line leads with its own marker.
pub open spec fn spec_item_line(
    b: BugSummaryView,
    status: Option<BugStatus>,
    legacy: Option<bool>,
) -> Seq<char> {
    let base = "LOTR-"@ + spec_decimal(b.id as nat) + ": "@ + b.title + spec_item_tag(
        legacy,
        b.legacy,
    );
    match status {
        Some(_) => base,
        None => b.status.spec_marker() + " "@ + base,
    }
}

fn item_line(b: &BugSummary, status: Option<BugStatus>, legacy: Option<bool>) -> (r: String)
    ensures
        r@ == spec_item_line(b@, status, legacy),
{
    let id_str = u64_string(b.id);
    let base = "LOTR-".to_owned().concat(id_str.as_str()).concat(": ").concat(b.title.as_str());
    let tagged = if legacy.is_none() && b.legacy {
        base.concat(" [legacy]")
    } else {
        proof {
            assert(base@ + Seq::<char>::empty() =~= base@);
        }
        base
    };
    match status {
        Some(_) => {
            proof {
                assert(tagged@ =~= spec_item_line(b@, status, legacy));
            }
            tagged
        },
        None => {
            let r = b.status.marker().to_owned().concat(" ").concat(tagged.as_str());
            proof {
                assert(r@ =~= spec_item_line(b@, status, legacy));
            }
            r
        },
    }
}

/// Empty-state text shown instead of an empty body.
pub open spec fn spec_empty_state(status: Option<BugStatus>) -> Seq<char> {
    match status {
        Some(_) => "_No open bugs!_"@,
        None => "_No bugs with this status!_"@,
    }
}

/// Body of the list view: the joined item lines, or the empty-state text
/// when the window holds nothing.
pub open spec fn spec_list_body(
    items: Seq<BugSummaryView>,
    status: Option<BugStatus>,
    legacy: Option<bool>,
) -> Seq<char> {
    if items.len() == 0 {
        spec_empty_state(status)
    } else {
        spec_join(
            items.map_values(|b: BugSummaryView| spec_item_line(b, status, legacy)),
            "\n"@,
        )
    }
}

/// An empty window always renders the empty-state text, which is never the
/// empty string.
pub proof fn lemma_empty_window_body(status: Option<BugStatus>, legacy: Option<bool>)
    ensures
        spec_list_body(Seq::empty(), status, legacy) == spec_empty_state(status),
        spec_list_body(Seq::empty(), status, legacy).len() > 0,
{
    reveal_strlit("_No open bugs!_");
    reveal_strlit("_No bugs with this status!_");
}

fn list_body(items: &Vec<BugSummary>, status: Option<BugStatus>, legacy: Option<bool>) -> (r:
    String)
    ensures
        r@ == spec_list_body(items@.map_values(|b: BugSummary| b@), status, legacy),
{
    let ghost views = items@.map_values(|b: BugSummary| b@);
    let ghost line_of = |b: BugSummaryView| spec_item_line(b, status, legacy);
    if items.len() == 0 {
        proof {
            assert(views.len() == 0);
        }
        match status {
            Some(_) => "_No open bugs!_".to_owned(),
            None => "_No bugs with this status!_".to_owned(),
        }
    } else {
        let mut lines: Vec<String> = Vec::new();
        let mut i: usize = 0;
        while i < items.len()
            invariant
                0 <= i <= items.len(),
                views == items@.map_values(|b: BugSummary| b@),
                views.len() == items@.len(),
                line_of == (|b: BugSummaryView| spec_item_line(b, status, legacy)),
                lines@.len() == i,
                forall|j: int| 0 <= j < i ==> #[trigger] lines@[j]@ == line_of(views[j]),
            decreases items.len() - i,
        {
            let line = item_line(&items[i], status, legacy);
            proof {
                assert(views[i as int] == items@[i as int]@);
                assert(line_of(views[i as int]) == spec_item_line(
                    items@[i as int]@,
                    status,
                    legacy,
                ));
            }
            lines.push(line);
            i = i + 1;
        }
        let r = join_with(&lines, "\n");
        proof {
            assert(lines@.map_values(|s: String| s@) =~= views.map_values(line_of));
        }
        r
    }
}

/// Title of the list view, embedding the active status filter (or the open
/// listing's wording), the edition qualifier and the total count.
pub open spec fn spec_list_title(
    status: Option<BugStatus>,
    legacy: Option<bool>,
    total: u32,
) -> Seq<char> {
    match status {
        Some(st) => st.spec_marker() + " Bug reports (Status: "@ + st.spec_name() + ")"@
            + spec_edition_tag(legacy) + " (Total: "@ + spec_decimal(total as nat) + ")"@,
        None => "Open bug reports"@ + spec_edition_tag(legacy) + " (Total: "@ + spec_decimal(
            total as nat,
        ) + ")"@,
    }
}

fn list_title(status: Option<BugStatus>, legacy: Option<bool>, total: u32) -> (r: String)
    ensures
        r@ == spec_list_title(status, legacy, total),
{
    let total_str = u32_string(total);
    match status {
        Some(st) => {
            let r = st.marker().to_owned().concat(" Bug reports (Status: ").concat(
                st.name(),
            ).concat(")").concat(edition_tag(legacy)).concat(" (Total: ").concat(
                total_str.as_str(),
            ).concat(")");
            proof {
                assert(r@ =~= spec_list_title(status, legacy, total));
            }
            r
        },
        None => {
            let r = "Open bug reports".to_owned().concat(edition_tag(legacy)).concat(
                " (Total: ",
            ).concat(total_str.as_str()).concat(")");
            proof {
                assert(r@ =~= spec_list_title(status, legacy, total));
            }
            r
        },
    }
}

/// Footer of the list view: `Page {page}/{total pages}`.
pub open spec fn spec_list_footer(page: u32, limit: u32, total: u32) -> Seq<char>
    recommends
        limit >= 1,
{
    "Page "@ + spec_decimal(page as nat) + "/"@ + spec_decimal(
        spec_total_pages(total, limit) as nat,
    )
}

fn list_footer(page: u32, limit: u32, total: u32) -> (r: String)
    requires
        limit >= 1,
    ensures
        r@ == spec_list_footer(page, limit, total),
{
    let pages = total_pages(total, limit);
    let r = "Page ".to_owned().concat(u32_string(page).as_str()).concat("/").concat(
        u32_string(pages).as_str(),
    );
    proof {
        assert(r@ =~= spec_list_footer(page, limit, total));
    }
    r
}

/// Colour of the list view: the filtered status's colour, or light grey for
/// the open listing.
pub open spec fn spec_list_colour(status: Option<BugStatus>) -> u32 {
    match status {
        Some(st) => st.spec_colour(),
        None => 0x979C9F,
    }
}

/// The full list-view payload, as `render_list` produces it on success.
pub open spec fn spec_list_payload(
    req: ListRequest,
    items: Seq<BugSummaryView>,
    total: u32,
) -> PayloadView {
    PayloadView {
        title: spec_list_title(req.status, req.legacy, total),
        body: spec_list_body(items, req.status, req.legacy),
        colour: spec_list_colour(req.status),
        footer: spec_list_footer(req.page, req.limit, total),
        image: None,
        timestamp: None,
        field: None,
        controls: seq![
            spec_previous_control(req.page),
            spec_next_control(req.page, req.limit, total),
        ],
    }
}

/// Renders the list view. The page is validated before anything is built;
/// a body past the size cap aborts with `ContentTooLarge` before any
/// message could be produced. On success the payload is exactly
/// `spec_list_payload`, with its two navigation controls.
pub fn render_list(req: &ListRequest, items: &Vec<BugSummary>, total: u32) -> (r: Result<
    Payload,
    EngineError,
>)
    requires
        req.wf(),
    ensures
        r is Err <==> (spec_page_out_of_range(req.page, req.limit, total) || spec_list_body(
            items@.map_values(|b: BugSummary| b@),
            req.status,
            req.legacy,
        ).len() > BODY_CAP),
        spec_page_out_of_range(req.page, req.limit, total) ==> r == Err::<
            Payload,
            EngineError,
        >(EngineError::PageOutOfRange),
        !spec_page_out_of_range(req.page, req.limit, total) && spec_list_body(
            items@.map_values(|b: BugSummary| b@),
            req.status,
            req.legacy,
        ).len() > BODY_CAP ==> r == Err::<Payload, EngineError>(EngineError::ContentTooLarge),
        r matches Ok(p) ==> p@ == spec_list_payload(*req, items@.map_values(|b: BugSummary| b@), total),
        r matches Ok(p) ==> p@.controls.len() == 2,
{
    if let Err(e) = check_page(req.page, req.limit, total) {
        return Err(e);
    }
    let body = list_body(items, req.status, req.legacy);
    if body.as_str().unicode_len() > BODY_CAP {
        return Err(EngineError::ContentTooLarge);
    }
    let title = list_title(req.status, req.legacy, total);
    let footer = list_footer(req.page, req.limit, total);
    let colour: u32 = match req.status {
        Some(st) => st.colour(),
        None => 0x979C9F,
    };
    let mut ctrls: Vec<Control> = Vec::new();
    ctrls.push(previous_control(req.page));
    ctrls.push(next_control(req.page, req.limit, total));
    let p = Payload {
        title,
        body,
        colour,
        footer,
        image: None,
        timestamp: None,
        field: None,
        controls: ctrls,
    };
    proof {
        assert(p@.controls =~= seq![
            spec_previous_control(req.page),
            spec_next_control(req.page, req.limit, total),
        ]);
        assert(p@ == spec_list_payload(*req, items@.map_values(|b: BugSummary| b@), total));
    }
    Ok(p)
}

} // verus!
