//! Rendering of the detail view: one record's title with its status marker,
//! the originating message as body when it could be resolved, the
//! supplementary-link field, and the control row.

use vstd::prelude::*;
use crate::controls::{
    close_control, link_control, resolve_control, spec_close_control, spec_link_control,
    spec_mutating_count, spec_resolve_control, Control, ControlView,
};
use crate::numfmt::{spec_decimal, u64_string};
use crate::payload::{EmbedField, EmbedFieldView, Payload, PayloadView};
use crate::records::{BugLink, BugLinkView, BugReport, BugReportView};
use crate::status::BugStatus;
use crate::text::{join_with, spec_join};

verus! {

/// What could be resolved of the message a record was reported from.
pub struct SourceMessage {
    pub content: String,
    pub author_name: String,
    pub image: Option<String>,
    pub link: String,
}

pub struct SourceMessageView {
    pub content: Seq<char>,
    pub author_name: Seq<char>,
    pub image: Option<Seq<char>>,
    pub link: Seq<char>,
}

impl View for SourceMessage {
    type V = SourceMessageView;

    open spec fn view(&self) -> SourceMessageView {
        SourceMessageView {
            content: self.content@,
            author_name: self.author_name@,
            image: match self.image {
                Some(i) => Some(i@),
                None => None,
            },
            link: self.link@,
        }
    }
}

/// View of an optional source message.
pub open spec fn spec_source_view(source: Option<SourceMessage>) -> Option<SourceMessageView> {
    match source {
        Some(m) => Some(m@),
        None => None,
    }
}

/// Mutating controls are offered only while the status is non-terminal and
/// the acting identity may mutate the record.
pub open spec fn spec_offers_mutation(status: BugStatus, authorized: bool) -> bool {
    !status.spec_is_terminal() && authorized
}

#[verifier::when_used_as_spec(spec_offers_mutation)]
pub fn offers_mutation(status: BugStatus, authorized: bool) -> (r: bool)
    ensures
        r == spec_offers_mutation(status, authorized),
{
    !status.is_terminal() && authorized
}

/// Title of the detail view.
pub open spec fn spec_detail_title(b: BugReportView) -> Seq<char> {
    b.status.spec_marker() + " LOTR-"@ + spec_decimal(b.id as nat) + ": "@ + b.title + (
    if b.legacy {
        " [legacy]"@
    } else {
        Seq::empty()
    })
}

fn detail_title(bug: &BugReport) -> (r: String)
    ensures
        r@ == spec_detail_title(bug@),
{
    let id_str = u64_string(bug.id);
    let base = bug.status.marker().to_owned().concat(" LOTR-").concat(id_str.as_str()).concat(
        ": ",
    ).concat(bug.title.as_str());
    let r = if bug.legacy {
        base.concat(" [legacy]")
    } else {
        base
    };
    proof {
        assert(r@ =~= spec_detail_title(bug@));
    }
    r
}

/// Footer of the detail view: the status, and the original author when the
/// source message could be resolved.
pub open spec fn spec_detail_footer(
    status: BugStatus,
    source: Option<SourceMessageView>,
) -> Seq<char> {
    match source {
        Some(m) => "Status: "@ + status.spec_name() + " • Submitted by "@ + m.author_name,
        None => "Status: "@ + status.spec_name(),
    }
}

fn detail_footer(status: BugStatus, source: &Option<SourceMessage>) -> (r: String)
    ensures
        r@ == spec_detail_footer(status, spec_source_view(*source)),
{
    let r = match source {
        Some(m) => "Status: ".to_owned().concat(status.name()).concat(
            " • Submitted by ",
        ).concat(m.author_name.as_str()),
        None => "Status: ".to_owned().concat(status.name()),
    };
    proof {
        assert(r@ =~= spec_detail_footer(status, spec_source_view(*source)));
    }
    r
}

/// One line of the supplementary-link field.
pub open spec fn spec_link_line(l: BugLinkView) -> Seq<char> {
    "#"@ + spec_decimal(l.id as nat) + ": ["@ + l.title + "]("@ + l.url + ")"@
}

fn link_line(l: &BugLink) -> (r: String)
    ensures
        r@ == spec_link_line(l@),
{
    let id_str = u64_string(l.id);
    let r = "#".to_owned().concat(id_str.as_str()).concat(": [").concat(l.title.as_str()).concat(
        "](",
    ).concat(l.url.as_str()).concat(")");
    proof {
        assert(r@ =~= spec_link_line(l@));
    }
    r
}

/// The supplementary-link field, present only when the record has links.
pub open spec fn spec_links_field(links: Seq<BugLinkView>) -> Option<EmbedFieldView> {
    if links.len() == 0 {
        None
    } else {
        Some(
            EmbedFieldView {
                name: "Additional information"@,
                value: spec_join(links.map_values(|l: BugLinkView| spec_link_line(l)), "\n"@),
            },
        )
    }
}

fn links_field(links: &Vec<BugLink>) -> (r: Option<EmbedField>)
    ensures
        match r {
            Some(f) => Some(f@) == spec_links_field(links@.map_values(|l: BugLink| l@)),
            None => links@.len() == 0,
        },
{
    let ghost views = links@.map_values(|l: BugLink| l@);
    let ghost line_of = |l: BugLinkView| spec_link_line(l);
    if links.len() == 0 {
        None
    } else {
        let mut lines: Vec<String> = Vec::new();
        let mut i: usize = 0;
        while i < links.len()
            invariant
                0 <= i <= links.len(),
                views == links@.map_values(|l: BugLink| l@),
                views.len() == links@.len(),
                line_of == (|l: BugLinkView| spec_link_line(l)),
                lines@.len() == i,
                forall|j: int| 0 <= j < i ==> #[trigger] lines@[j]@ == line_of(views[j]),
            decreases links.len() - i,
        {
            let line = link_line(&links[i]);
            proof {
                assert(views[i as int] == links@[i as int]@);
                assert(line_of(views[i as int]) == spec_link_line(links@[i as int]@));
            }
            lines.push(line);
            i = i + 1;
        }
        let value = join_with(&lines, "\n");
        proof {
            assert(lines@.map_values(|s: String| s@) =~= views.map_values(line_of));
        }
        Some(EmbedField { name: "Additional information".to_owned(), value })
    }
}

/// Control row of the detail view: a link-out control when the originating
/// message has a link, then the two mutation controls when they are offered.
pub open spec fn spec_detail_controls(
    source: Option<SourceMessageView>,
    with_mutations: bool,
) -> Seq<ControlView> {
    let link_part: Seq<ControlView> = match source {
        Some(m) => seq![spec_link_control(m.link)],
        None => Seq::empty(),
    };
    let mutation_part: Seq<ControlView> = if with_mutations {
        seq![spec_resolve_control(), spec_close_control()]
    } else {
        Seq::empty()
    };
    link_part + mutation_part
}

/// Without the mutation controls, the row mutates nothing: a terminal
/// status or a missing permission leaves only the link-out control, which
/// cannot request a status change.
pub proof fn lemma_no_mutating_controls_without_mutations(source: Option<SourceMessageView>)
    ensures
        spec_mutating_count(spec_detail_controls(source, false)) == 0,
{
    reveal(Seq::filter);
    let row = spec_detail_controls(source, false);
    match source {
        Some(m) => {
            assert(row =~= seq![spec_link_control(m.link)]);
            assert(row.drop_last() =~= Seq::<ControlView>::empty());
        },
        None => {
            assert(row =~= Seq::<ControlView>::empty());
        },
    }
}

/// Offered mutations put exactly the two mutation controls in the row: any
/// non-terminal record can be sent to either terminal status from it.
pub proof fn lemma_mutation_controls_offered(source: Option<SourceMessageView>)
    ensures
        spec_mutating_count(spec_detail_controls(source, true)) == 2,
        spec_detail_controls(source, true).contains(spec_resolve_control()),
        spec_detail_controls(source, true).contains(spec_close_control()),
{
    reveal_with_fuel(Seq::filter, 5);
    let row = spec_detail_controls(source, true);
    let pred = |c: ControlView| c.is_mutating();
    match source {
        Some(m) => {
            assert(row =~= seq![
                spec_link_control(m.link),
                spec_resolve_control(),
                spec_close_control(),
            ]);
            assert(row.drop_last() =~= seq![spec_link_control(m.link), spec_resolve_control()]);
            assert(row.drop_last().drop_last() =~= seq![spec_link_control(m.link)]);
            assert(row.drop_last().drop_last().drop_last() =~= Seq::<ControlView>::empty());
            assert(row[1] == spec_resolve_control());
            assert(row[2] == spec_close_control());
            assert(row.drop_last().drop_last().filter(pred) =~= Seq::<ControlView>::empty());
            assert(row.drop_last().filter(pred) =~= seq![spec_resolve_control()]);
            assert(row.filter(pred) =~= seq![spec_resolve_control(), spec_close_control()]);
        },
        None => {
            assert(row =~= seq![spec_resolve_control(), spec_close_control()]);
            assert(row.drop_last() =~= seq![spec_resolve_control()]);
            assert(row.drop_last().drop_last() =~= Seq::<ControlView>::empty());
            assert(row[0] == spec_resolve_control());
            assert(row[1] == spec_close_control());
            assert(row.drop_last().filter(pred) =~= seq![spec_resolve_control()]);
            assert(row.filter(pred) =~= seq![spec_resolve_control(), spec_close_control()]);
        },
    }
    assert(spec_mutating_count(row) == row.filter(pred).len());
}

/// A record in a terminal status renders zero mutating controls, whatever
/// the actor's permission.
pub proof fn lemma_terminal_renders_no_mutations(
    b: BugReportView,
    source: Option<SourceMessageView>,
    authorized: bool,
)
    requires
        b.status.spec_is_terminal(),
    ensures
        spec_mutating_count(
            spec_detail_payload(
                b,
                source,
                spec_offers_mutation(b.status, authorized),
            ).controls,
        ) == 0,
{
    lemma_no_mutating_controls_without_mutations(source);
}

/// The full detail-view payload, as `render_detail` produces it.
pub open spec fn spec_detail_payload(
    b: BugReportView,
    source: Option<SourceMessageView>,
    with_mutations: bool,
) -> PayloadView {
    PayloadView {
        title: spec_detail_title(b),
        body: match source {
            Some(m) => m.content,
            None => Seq::empty(),
        },
        colour: b.status.spec_colour(),
        footer: spec_detail_footer(b.status, source),
        image: match source {
            Some(m) => m.image,
            None => None,
        },
        timestamp: Some(b.timestamp),
        field: spec_links_field(b.links),
        controls: spec_detail_controls(source, with_mutations),
    }
}

/// Renders the detail view; `with_mutations` is the caller's authorization
/// decision, `spec_offers_mutation` of the status and the actor's
/// permission.
pub fn render_detail(bug: &BugReport, source: &Option<SourceMessage>, with_mutations: bool) -> (p:
    Payload)
    ensures
        p@ == spec_detail_payload(bug@, spec_source_view(*source), with_mutations),
{
    let title = detail_title(bug);
    let footer = detail_footer(bug.status, source);
    let field = links_field(&bug.links);
    let (body, image): (String, Option<String>) = match source {
        Some(m) => (
            m.content.clone(),
            match &m.image {
                Some(i) => Some(i.clone()),
                None => None,
            },
        ),
        None => {
            proof {
                reveal_strlit("");
            }
            ("".to_owned(), None)
        },
    };
    let mut ctrls: Vec<Control> = Vec::new();
    if let Some(m) = source {
        ctrls.push(link_control(m.link.as_str()));
    }
    if with_mutations {
        ctrls.push(resolve_control());
        ctrls.push(close_control());
    }
    let p = Payload {
        title,
        body,
        colour: bug.status.colour(),
        footer,
        image,
        timestamp: Some(bug.timestamp),
        field,
        controls: ctrls,
    };
    proof {
        assert(""@ =~= Seq::<char>::empty()) by {
            reveal_strlit("");
        }
        assert(p@.controls =~= spec_detail_controls(spec_source_view(*source), with_mutations));
        if bug.links@.len() == 0 {
            assert(bug@.links.len() == 0);
        }
        assert(p@ == spec_detail_payload(bug@, spec_source_view(*source), with_mutations));
    }
    p
}

} // verus!
