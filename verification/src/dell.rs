//! The Dell extraction workflow: slug the model into the driver-listing
//! URL, apply four filter controls in order, scan every table cell of the
//! filtered page for the version pattern (the last matching cell wins),
//! then open the older-version history and take the first anchor's text as
//! the approved version.

use vstd::prelude::*;

verus! {

use vstd::pervasive::unreached;
use crate::html::{tag_texts, tag_texts_of};
use crate::pattern::dell_find;
use crate::session::{
    Locator, SessionAction, SessionEvent, is_nav, is_click_xpath, is_click_css, is_read_html_css,
};
use crate::text::slug_seq;
use crate::{dell_model, Server, ServerIn};

/// The driver-listing URL for a model slug.
pub open spec fn dell_url_of(slug: Seq<char>) -> Seq<char> {
    "https://www.dell.com/support/home/us/en/04/product-support/product/"@ + slug + "/drivers"@
}

pub open spec fn dell_os_xpath() -> Seq<char> {
    "//select[@id='operating-system']"@
}

pub open spec fn dell_naa_xpath() -> Seq<char> {
    "//option[@value='NAA']"@
}

pub open spec fn dell_category_xpath() -> Seq<char> {
    "//select[@id='ddl-category']"@
}

pub open spec fn dell_bios_xpath() -> Seq<char> {
    "//option[@value='BI']"@
}

pub open spec fn dell_details_css() -> Seq<char> {
    "button.details-control"@
}

pub open spec fn dell_old_versions_css() -> Seq<char> {
    "a.pointer-cursor:nth-child(2)"@
}

pub open spec fn dell_cell_css() -> Seq<char> {
    "table.w-100 > tbody:nth-child(2) > tr:nth-child(1) > td:nth-child(1) > a:nth-child(1)"@
}

/// Builds the driver-listing URL from a model slug.
pub fn dell_url(slug: &str) -> (r: String)
    ensures
        r@ == dell_url_of(slug@),
{
    let mut url = String::from_str(
        "https://www.dell.com/support/home/us/en/04/product-support/product/",
    );
    url.append(slug);
    url.append("/drivers");
    url
}

/// What scanning the listed cells for the Dell version pattern yields:
/// the version group of the last cell that holds a match, since a later
/// match overwrites an earlier one.
pub open spec fn dell_scan(cells: Seq<Seq<char>>) -> Option<Seq<char>>
    decreases cells.len(),
{
    if cells.len() == 0 {
        None
    } else {
        match dell_find(cells.last()) {
            Some(v) => Some(v),
            None => dell_scan(cells.drop_last()),
        }
    }
}

/// A later cell overwrites an earlier one: appending a cell that holds a
/// match makes that match the result, whatever the earlier cells held;
/// appending one without a match changes nothing.
pub proof fn lemma_dell_scan_last_wins(cells: Seq<Seq<char>>, cell: Seq<char>)
    ensures
        dell_scan(cells.push(cell)) == match dell_find(cell) {
            Some(v) => Some(v),
            None => dell_scan(cells),
        },
{
    assert(cells.push(cell).drop_last() =~= cells);
    assert(cells.push(cell).last() == cell);
}

/// Scans the cells in order, each match overwriting the one before, so
/// the last matching cell's version is kept.
pub fn dell_scan_cells(cells: &Vec<String>) -> (r: Option<String>)
    ensures
        r.deep_view() == dell_scan(cells.deep_view()),
{
    let mut cur: Option<String> = None;
    let mut i: usize = 0;
    while i < cells.len()
        invariant
            i <= cells@.len(),
            cur.deep_view() == dell_scan(cells.deep_view().subrange(0, i as int)),
        decreases cells@.len() - i,
    {
        let ghost pre = cells.deep_view().subrange(0, i as int);
        let ghost post = cells.deep_view().subrange(0, i as int + 1);
        match crate::pattern::dell_find_exec(cells[i].as_str()) {
            Some(v) => {
                cur = Some(v);
            },
            None => {},
        }
        proof {
            assert(post.drop_last() =~= pre);
            assert(post.last() == cells.deep_view()[i as int]);
        }
        i = i + 1;
    }
    proof {
        assert(cells.deep_view().subrange(0, cells@.len() as int) =~= cells.deep_view());
    }
    cur
}

/// Scans every table cell of a page for the Dell version pattern; the
/// last matching cell's version group is the current version.
pub fn dell_current_from_source(html: &str) -> (r: Option<String>)
    ensures
        r.deep_view() == dell_scan(tag_texts_of(html@, "td"@)),
{
    let cells = tag_texts(html, "td");
    dell_scan_cells(&cells)
}

/// The first of the listed texts, if any.
pub open spec fn first_text(texts: Seq<Seq<char>>) -> Option<Seq<char>> {
    if texts.len() > 0 {
        Some(texts[0])
    } else {
        None
    }
}

/// The text of the first anchor in a piece of HTML: the approved version
/// as the history cell lists it, absent where the cell holds no anchor.
pub fn dell_approved_from_cell(html: &str) -> (r: Option<String>)
    ensures
        r.deep_view() == first_text(tag_texts_of(html@, "a"@)),
{
    let texts = tag_texts(html, "a");
    if texts.len() > 0 {
        Some(texts[0].clone())
    } else {
        None
    }
}

/// Where the Dell workflow stands: which answer it waits for next.
#[derive(Debug, Clone, Copy, PartialEq, Eq, Structural)]
pub enum DellStep {
    /// The driver-listing page is loading.
    Load,
    /// The operating-system selector is being clicked.
    Os,
    /// The fixed "NAA" option is being clicked.
    Naa,
    /// The category selector is being clicked.
    Category,
    /// The fixed "BIOS" option is being clicked.
    Bios,
    /// The filtered page source is being read.
    Source,
    /// The show-details control is being clicked.
    Details,
    /// The older-version history link is being clicked.
    OldVersions,
    /// The history cell's HTML is being read.
    Cell,
    /// The workflow has finished.
    Done,
}

/// The event shape the Dell workflow accepts at each step.
pub open spec fn dell_expects(st: DellStep, ev: SessionEvent) -> bool {
    match st {
        DellStep::Load => ev is Loaded,
        DellStep::Os => ev is Clicked,
        DellStep::Naa => ev is Clicked,
        DellStep::Category => ev is Clicked,
        DellStep::Bios => ev is Clicked,
        DellStep::Source => ev is Source,
        DellStep::Details => ev is Clicked,
        DellStep::OldVersions => ev is Clicked,
        DellStep::Cell => ev is ElementHtml,
        DellStep::Done => false,
    }
}

/// The Dell workflow as a state machine: each session event advances it
/// one step and yields the next action, until the record is complete.
#[derive(Debug)]
pub struct DellFlow {
    pub state: DellStep,
    pub record: Server,
}

impl DellFlow {
    /// Begins the workflow for a request: an empty record, and a first
    /// action that navigates to the slugged driver-listing URL.
    pub fn start(req: &ServerIn) -> (r: (DellFlow, SessionAction))
        ensures
            r.0.state is Load,
            r.0.record.vendor@ == req.vendor@,
            r.0.record.model@ == req.model@,
            r.0.record.current is None,
            r.0.record.approved is None,
            is_nav(r.1, dell_url_of(slug_seq(req.model@))),
    {
        let record = Server::new_for(req);
        let slug = dell_model(req.model.clone());
        let url = dell_url(slug.as_str());
        (DellFlow { state: DellStep::Load, record }, SessionAction::Navigate(url))
    }

    /// Decides whether the event fits the step the workflow waits at.
    pub fn accepts(&self, ev: &SessionEvent) -> (r: bool)
        ensures
            r == dell_expects(self.state, *ev),
    {
        match self.state {
            DellStep::Load => matches!(ev, SessionEvent::Loaded),
            DellStep::Os => matches!(ev, SessionEvent::Clicked),
            DellStep::Naa => matches!(ev, SessionEvent::Clicked),
            DellStep::Category => matches!(ev, SessionEvent::Clicked),
            DellStep::Bios => matches!(ev, SessionEvent::Clicked),
            DellStep::Source => matches!(ev, SessionEvent::Source(_)),
            DellStep::Details => matches!(ev, SessionEvent::Clicked),
            DellStep::OldVersions => matches!(ev, SessionEvent::Clicked),
            DellStep::Cell => matches!(ev, SessionEvent::ElementHtml(_)),
            DellStep::Done => false,
        }
    }

    /// Advances one step on a session event. The filter clicks come in
    /// their fixed order; the page source read sets the current version by
    /// the last-match-wins cell scan; the history cell read sets the
    /// approved version from its first anchor; then the workflow is done
    /// and no action is returned.
    pub fn step(&mut self, ev: SessionEvent) -> (r: Option<SessionAction>)
        requires
            dell_expects(old(self).state, ev),
        ensures
            final(self).record.vendor@ == old(self).record.vendor@,
            final(self).record.model@ == old(self).record.model@,
            r is None <==> final(self).state is Done,
            match old(self).state {
                DellStep::Load => {
                    &&& final(self).state is Os
                    &&& final(self).record == old(self).record
                    &&& r matches Some(a) && is_click_xpath(a, dell_os_xpath())
                },
                DellStep::Os => {
                    &&& final(self).state is Naa
                    &&& final(self).record == old(self).record
                    &&& r matches Some(a) && is_click_xpath(a, dell_naa_xpath())
                },
                DellStep::Naa => {
                    &&& final(self).state is Category
                    &&& final(self).record == old(self).record
                    &&& r matches Some(a) && is_click_xpath(a, dell_category_xpath())
                },
                DellStep::Category => {
                    &&& final(self).state is Bios
                    &&& final(self).record == old(self).record
                    &&& r matches Some(a) && is_click_xpath(a, dell_bios_xpath())
                },
                DellStep::Bios => {
                    &&& final(self).state is Source
                    &&& final(self).record == old(self).record
                    &&& r matches Some(a) && a is ReadSource
                },
                DellStep::Source => {
                    &&& final(self).state is Details
                    &&& ev matches SessionEvent::Source(src) ==> final(self).record.current.deep_view()
                        == dell_scan(tag_texts_of(src@, "td"@))
                    &&& final(self).record.approved == old(self).record.approved
                    &&& r matches Some(a) && is_click_css(a, dell_details_css())
                },
                DellStep::Details => {
                    &&& final(self).state is OldVersions
                    &&& final(self).record == old(self).record
                    &&& r matches Some(a) && is_click_css(a, dell_old_versions_css())
                },
                DellStep::OldVersions => {
                    &&& final(self).state is Cell
                    &&& final(self).record == old(self).record
                    &&& r matches Some(a) && is_read_html_css(a, dell_cell_css())
                },
                DellStep::Cell => {
                    &&& final(self).state is Done
                    &&& ev matches SessionEvent::ElementHtml(h) ==> final(self).record.approved.deep_view()
                        == first_text(tag_texts_of(h@, "a"@))
                    &&& final(self).record.current == old(self).record.current
                    &&& r is None
                },
                DellStep::Done => false,
            },
    {
        let st = self.state;
        match st {
            DellStep::Load => {
                self.state = DellStep::Os;
                Some(
                    SessionAction::WaitClick(
                        Locator::XPath(String::from_str("//select[@id='operating-system']")),
                    ),
                )
            },
            DellStep::Os => {
                self.state = DellStep::Naa;
                Some(
                    SessionAction::WaitClick(
                        Locator::XPath(String::from_str("//option[@value='NAA']")),
                    ),
                )
            },
            DellStep::Naa => {
                self.state = DellStep::Category;
                Some(
                    SessionAction::WaitClick(
                        Locator::XPath(String::from_str("//select[@id='ddl-category']")),
                    ),
                )
            },
            DellStep::Category => {
                self.state = DellStep::Bios;
                Some(
                    SessionAction::WaitClick(
                        Locator::XPath(String::from_str("//option[@value='BI']")),
                    ),
                )
            },
            DellStep::Bios => {
                self.state = DellStep::Source;
                Some(SessionAction::ReadSource)
            },
            DellStep::Source => {
                match ev {
                    SessionEvent::Source(src) => {
                        let cur = dell_current_from_source(src.as_str());
                        self.record.current = cur;
                        self.state = DellStep::Details;
                        Some(
                            SessionAction::WaitClick(
                                Locator::Css(String::from_str("button.details-control")),
                            ),
                        )
                    },
                    _ => unreached(),
                }
            },
            DellStep::Details => {
                self.state = DellStep::OldVersions;
                Some(
                    SessionAction::WaitClick(
                        Locator::Css(String::from_str("a.pointer-cursor:nth-child(2)")),
                    ),
                )
            },
            DellStep::OldVersions => {
                self.state = DellStep::Cell;
                Some(
                    SessionAction::ReadElementHtml(
                        Locator::Css(
                            String::from_str(
                                "table.w-100 > tbody:nth-child(2) > tr:nth-child(1) > td:nth-child(1) > a:nth-child(1)",
                            ),
                        ),
                    ),
                )
            },
            DellStep::Cell => {
                match ev {
                    SessionEvent::ElementHtml(h) => {
                        let approved = dell_approved_from_cell(h.as_str());
                        self.record.approved = approved;
                        self.state = DellStep::Done;
                        None
                    },
                    _ => unreached(),
                }
            },
            DellStep::Done => unreached(),
        }
    }

    /// Hands the finished record out.
    pub fn into_record(self) -> (r: Server)
        requires
            self.state is Done,
        ensures
            r == self.record,
    {
        self.record
    }
}

} // verus!
