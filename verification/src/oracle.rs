//! The Oracle extraction: one static release-history page, read row by
//! row. The first row whose anchor id equals the model gives the current
//! version from its strong tag; the row immediately after gives the
//! approved version from its paragraph; nothing further is consulted. A
//! page with no matching row yields a record with both fields absent,
//! which is not a failure.

use vstd::prelude::*;

use select::document::Document;
use select::predicate::Name;

verus! {

use crate::pattern::{oracle_version, oracle_version_exec};
use crate::text::str_eq;
use crate::{Server, ServerIn};

/// One table row of the release-history page, reduced to what the
/// extraction reads: the id of each anchor in the row, the text of its
/// first strong tag, and the text of its first paragraph.
#[derive(Debug, Clone)]
pub struct OracleRow {
    pub anchor_ids: Vec<String>,
    pub strong: Option<String>,
    pub para: Option<String>,
}

/// The mathematical shape of one row.
pub ghost struct OracleRowV {
    pub anchor_ids: Seq<Seq<char>>,
    pub strong: Option<Seq<char>>,
    pub para: Option<Seq<char>>,
}

impl View for OracleRow {
    type V = OracleRowV;

    open spec fn view(&self) -> OracleRowV {
        OracleRowV {
            anchor_ids: self.anchor_ids.deep_view(),
            strong: self.strong.deep_view(),
            para: self.para.deep_view(),
        }
    }
}

impl DeepView for OracleRow {
    type V = OracleRowV;

    open spec fn deep_view(&self) -> OracleRowV {
        self.view()
    }
}

/// The rows of the release-history page, in document order, each reduced
/// to its anchor ids, first strong text and first paragraph text.
pub uninterp spec fn oracle_rows_of(html: Seq<char>) -> Seq<OracleRowV>;

/// Relies on select's Document::from, find with the Name predicate,
/// Node::attr and Node::text: parses the HTML and reduces each <tr> to its
/// anchor ids, first <strong> text and first <p> text, in document order.
#[verifier::external_body]
pub(crate) fn oracle_rows(html: &str) -> (r: Vec<OracleRow>)
    ensures
        r.deep_view() == oracle_rows_of(html@),
{
    let doc = Document::from(html);
    let mut rows = Vec::new();
    for tr in doc.find(Name("tr")) {
        let mut anchor_ids = Vec::new();
        for a in tr.find(Name("a")) {
            if let Some(id) = a.attr("id") {
                anchor_ids.push(id.to_string());
            }
        }
        let strong = tr.find(Name("strong")).next().map(|n| n.text());
        let para = tr.find(Name("p")).next().map(|n| n.text());
        rows.push(OracleRow { anchor_ids, strong, para });
    }
    rows
}

/// The row holds an anchor whose id equals the model.
pub open spec fn row_matches_model(row: OracleRowV, model: Seq<char>) -> bool {
    row.anchor_ids.contains(model)
}

/// What the row's strong tag contributes: the version text of its release
/// line, where the tag and a match exist.
pub open spec fn strong_version(row: OracleRowV) -> Option<Seq<char>> {
    match row.strong {
        Some(t) => oracle_version(t),
        None => None,
    }
}

/// What the row's paragraph contributes: the version text of its release
/// line, where the paragraph and a match exist.
pub open spec fn para_version(row: OracleRowV) -> Option<Seq<char>> {
    match row.para {
        Some(t) => oracle_version(t),
        None => None,
    }
}

/// What extracting from the rows at or after position `i` yields: at the
/// first row whose anchor id equals the model, the current version from
/// that row's strong tag and the approved version from the very next
/// row's paragraph; with no matching row, both absent.
pub open spec fn oracle_extract_from(rows: Seq<OracleRowV>, model: Seq<char>, i: int) -> (
    Option<Seq<char>>,
    Option<Seq<char>>,
)
    decreases rows.len() - i,
{
    if i < 0 || i >= rows.len() {
        (None, None)
    } else if row_matches_model(rows[i], model) {
        (
            strong_version(rows[i]),
            if i + 1 < rows.len() {
                para_version(rows[i + 1])
            } else {
                None
            },
        )
    } else {
        oracle_extract_from(rows, model, i + 1)
    }
}

/// What extracting from the page's rows yields for a model.
pub open spec fn oracle_extract(rows: Seq<OracleRowV>, model: Seq<char>) -> (
    Option<Seq<char>>,
    Option<Seq<char>>,
) {
    oracle_extract_from(rows, model, 0)
}

proof fn lemma_oracle_extract_no_match(rows: Seq<OracleRowV>, model: Seq<char>, i: int)
    requires
        forall|j: int| 0 <= j < rows.len() ==> !row_matches_model(#[trigger] rows[j], model),
    ensures
        oracle_extract_from(rows, model, i) == (None::<Seq<char>>, None::<Seq<char>>),
    decreases rows.len() - i,
{
    if 0 <= i < rows.len() {
        lemma_oracle_extract_no_match(rows, model, i + 1);
    }
}

/// A page without a row whose anchor id equals the model leaves both
/// fields absent; this is not a failure.
pub proof fn lemma_oracle_absent_without_match(rows: Seq<OracleRowV>, model: Seq<char>)
    requires
        forall|j: int| 0 <= j < rows.len() ==> !row_matches_model(#[trigger] rows[j], model),
    ensures
        oracle_extract(rows, model) == (None::<Seq<char>>, None::<Seq<char>>),
{
    lemma_oracle_extract_no_match(rows, model, 0);
}

/// Decides whether a row holds an anchor whose id equals the model.
fn row_has_model(row: &OracleRow, model: &str) -> (r: bool)
    ensures
        r == row_matches_model(row.deep_view(), model@),
{
    let mut j: usize = 0;
    while j < row.anchor_ids.len()
        invariant
            j <= row.anchor_ids@.len(),
            forall|k: int| 0 <= k < j ==> row.anchor_ids.deep_view()[k] != model@,
        decreases row.anchor_ids@.len() - j,
    {
        if str_eq(row.anchor_ids[j].as_str(), model) {
            proof {
                assert(row.deep_view().anchor_ids[j as int] == model@);
            }
            return true;
        }
        j = j + 1;
    }
    proof {
        assert(forall|k: int| 0 <= k < row.deep_view().anchor_ids.len()
            ==> row.deep_view().anchor_ids[k] != model@);
    }
    false
}

/// Runs the release pattern over an optional piece of text.
fn version_of_text(text: &Option<String>) -> (r: Option<String>)
    ensures
        r.deep_view() == match text.deep_view() {
            Some(t) => oracle_version(t),
            None => None::<Seq<char>>,
        },
{
    match text {
        Some(t) => oracle_version_exec(t.as_str()),
        None => None,
    }
}

/// Walks the rows in document order and extracts the version pair for a
/// model: current from the first matching row's strong tag, approved from
/// the next row's paragraph, nothing past that row pair.
pub fn oracle_extract_rows(rows: &Vec<OracleRow>, model: &str) -> (r: (
    Option<String>,
    Option<String>,
))
    ensures
        (r.0.deep_view(), r.1.deep_view()) == oracle_extract(rows.deep_view(), model@),
{
    let mut i: usize = 0;
    while i < rows.len()
        invariant
            i <= rows@.len(),
            oracle_extract(rows.deep_view(), model@) == oracle_extract_from(
                rows.deep_view(),
                model@,
                i as int,
            ),
        decreases rows@.len() - i,
    {
        if row_has_model(&rows[i], model) {
            let current = version_of_text(&rows[i].strong);
            let approved: Option<String> = if i + 1 < rows.len() {
                version_of_text(&rows[i + 1].para)
            } else {
                None
            };
            return (current, approved);
        }
        i = i + 1;
    }
    (None, None)
}

/// Extracts the firmware record for a request from the release-history
/// page's HTML: vendor and model echoed, the version pair from the row
/// scan. A page with no matching row leaves both fields absent.
pub fn get_oracle_bios(req: &ServerIn, html: &str) -> (r: Server)
    ensures
        r.vendor@ == req.vendor@,
        r.model@ == req.model@,
        (r.current.deep_view(), r.approved.deep_view()) == oracle_extract(
            oracle_rows_of(html@),
            req.model@,
        ),
{
    let rows = oracle_rows(html);
    let mut out = Server::new_for(req);
    let versions = oracle_extract_rows(&rows, req.model.as_str());
    out.current = versions.0;
    out.approved = versions.1;
    out
}

} // verus!
