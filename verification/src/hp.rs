//! The HP extraction workflow: search the support home for the model, open
//! the top BIOS result, rewrite the results URL so they sort by universal
//! date descending, follow the first revision link, and read the first two
//! "Version" bold tags of the revision page as current and approved.

use vstd::prelude::*;

verus! {

use vstd::pervasive::unreached;
use crate::error::FwPullError;
use crate::html::{first_anchor_href, first_anchor_href_of, tag_texts, tag_texts_of};
use crate::pattern::{dotted_find, dotted_find_exec};
use crate::session::{
    Locator, SessionAction, SessionEvent, is_nav, is_click_css, is_type_css, is_find_css,
    is_read_html_css,
};
use crate::text::{has_at, has_at_exec};
use crate::{Server, ServerIn};

pub open spec fn hp_home_url() -> Seq<char> {
    "https://support.hpe.com/hpesc/public/home"@
}

pub open spec fn hp_search_box_css() -> Seq<char> {
    ".magic-box-input > input:nth-child(2)"@
}

pub open spec fn hp_search_button_css() -> Seq<char> {
    ".CoveoSearchButton"@
}

pub open spec fn hp_bios_link_css() -> Seq<char> {
    "div.coveo-list-layout:nth-child(1) > div:nth-child(1) > div:nth-child(2) > div:nth-child(2) > div:nth-child(3) > div:nth-child(1) > a:nth-child(1)"@
}

pub open spec fn hp_revision_link_css() -> Seq<char> {
    "#driversAndSoftwareTableResultList > table:nth-child(3) > tr:nth-child(2) > td:nth-child(7) > div:nth-child(1) > a:nth-child(1)"@
}

pub open spec fn hp_revision_tab_css() -> Seq<char> {
    "#ui-id-6"@
}

/// The fragment prefix a relevance-sorted results URL carries.
pub open spec fn hp_sort_prefix() -> Seq<char> {
    "t=DriversandSoftware&sort=relevancy&layout=table&numberOfResults=25&f"@
}

/// What that prefix is rewritten to: the same results sorted by universal
/// date descending.
pub open spec fn hp_sort_replacement() -> Seq<char> {
    "t=DriversandSoftware&sort=%40hpescuniversaldate descending&layout=table&numberOfResults=25&f"@
}

/// The position of the first '#' at or after `i`, if any.
pub open spec fn first_hash_from(s: Seq<char>, i: int) -> Option<int>
    decreases s.len() - i,
{
    if i < 0 || i >= s.len() {
        None
    } else if s[i] == '#' {
        Some(i)
    } else {
        first_hash_from(s, i + 1)
    }
}

/// What rewriting a results URL to date-descending order yields: where the
/// URL has a fragment beginning with the relevance prefix, that prefix is
/// replaced and the rest of the fragment kept; where it has no such
/// fragment, nothing — the sorted URL cannot be built.
pub open spec fn hp_date_sort_url_of(u: Seq<char>) -> Option<Seq<char>> {
    match first_hash_from(u, 0) {
        Some(h) => if has_at(u, hp_sort_prefix(), h + 1) {
            Some(
                u.subrange(0, h + 1) + hp_sort_replacement() + u.subrange(
                    h + 1 + hp_sort_prefix().len() as int,
                    u.len() as int,
                ),
            )
        } else {
            None
        },
        None => None,
    }
}

/// Rewrites a results URL so the results sort by universal date
/// descending instead of relevance.
pub fn get_hp_date_sort_url(url: &str) -> (r: Option<String>)
    ensures
        r.deep_view() == hp_date_sort_url_of(url@),
{
    let n = url.unicode_len();
    let mut i: usize = 0;
    while i < n && url.get_char(i) != '#'
        invariant
            i <= n,
            n == url@.len(),
            first_hash_from(url@, 0) == first_hash_from(url@, i as int),
        decreases n - i,
    {
        i = i + 1;
    }
    if i >= n {
        return None;
    }
    if !has_at_exec(url, "t=DriversandSoftware&sort=relevancy&layout=table&numberOfResults=25&f", i + 1) {
        return None;
    }
    let plen = "t=DriversandSoftware&sort=relevancy&layout=table&numberOfResults=25&f".unicode_len();
    let head = url.substring_char(0, i + 1);
    let tail = url.substring_char(i + 1 + plen, n);
    let mut out = String::from_str(head);
    out.append("t=DriversandSoftware&sort=%40hpescuniversaldate descending&layout=table&numberOfResults=25&f");
    out.append(tail);
    proof {
        assert(first_hash_from(url@, 0) == Some(i as int));
        assert(out@ =~= hp_date_sort_url_of(url@).unwrap());
    }
    Some(out)
}

/// What a bold tag contributes: where its text starts with "Version", the
/// leftmost dotted number in it, if any; otherwise nothing.
pub open spec fn hp_tag_version(tag: Seq<char>) -> Option<Seq<char>> {
    if has_at(tag, "Version"@, 0) {
        dotted_find(tag)
    } else {
        None
    }
}

/// What scanning the bold tags in order yields, carried forward from
/// position `i` with the versions seen so far: the first contributing tag
/// fills the current version, the second the approved one, and every
/// further match is ignored.
pub open spec fn hp_scan_from(
    tags: Seq<Seq<char>>,
    i: int,
    cur: Option<Seq<char>>,
    app: Option<Seq<char>>,
) -> (Option<Seq<char>>, Option<Seq<char>>)
    decreases tags.len() - i,
{
    if i < 0 || i >= tags.len() {
        (cur, app)
    } else {
        match hp_tag_version(tags[i]) {
            Some(v) => if cur is None {
                hp_scan_from(tags, i + 1, Some(v), app)
            } else if app is None {
                hp_scan_from(tags, i + 1, cur, Some(v))
            } else {
                hp_scan_from(tags, i + 1, cur, app)
            },
            None => hp_scan_from(tags, i + 1, cur, app),
        }
    }
}

/// What scanning the bold tags of the revision page yields: current from
/// the first "Version" tag with a dotted number, approved from the second.
pub open spec fn hp_scan(tags: Seq<Seq<char>>) -> (Option<Seq<char>>, Option<Seq<char>>) {
    hp_scan_from(tags, 0, None, None)
}

/// Once both versions are filled, the tags from position `i` on change
/// nothing: every match past the first two is ignored.
pub proof fn lemma_hp_scan_saturated(tags: Seq<Seq<char>>, i: int, cur: Seq<char>, app: Seq<char>)
    ensures
        hp_scan_from(tags, i, Some(cur), Some(app)) == (Some(cur), Some(app)),
    decreases tags.len() - i,
{
    if 0 <= i < tags.len() {
        lemma_hp_scan_saturated(tags, i + 1, cur, app);
    }
}

/// Scans the bold-tag texts in order for the first two "Version" entries.
pub fn hp_scan_tags(tags: &Vec<String>) -> (r: (Option<String>, Option<String>))
    ensures
        (r.0.deep_view(), r.1.deep_view()) == hp_scan(tags.deep_view()),
{
    let mut cur: Option<String> = None;
    let mut app: Option<String> = None;
    let mut i: usize = 0;
    while i < tags.len()
        invariant
            i <= tags@.len(),
            hp_scan(tags.deep_view()) == hp_scan_from(
                tags.deep_view(),
                i as int,
                cur.deep_view(),
                app.deep_view(),
            ),
        decreases tags@.len() - i,
    {
        let tag = &tags[i];
        let hit: Option<String> = if has_at_exec(tag.as_str(), "Version", 0) {
            dotted_find_exec(tag.as_str())
        } else {
            None
        };
        proof {
            assert(hit.deep_view() == hp_tag_version(tags.deep_view()[i as int]));
        }
        match hit {
            Some(v) => {
                if cur.is_none() {
                    cur = Some(v);
                } else if app.is_none() {
                    app = Some(v);
                }
            },
            None => {},
        }
        i = i + 1;
    }
    (cur, app)
}

/// Scans every bold tag of a page for the first two "Version" entries.
pub fn hp_versions_from_source(html: &str) -> (r: (Option<String>, Option<String>))
    ensures
        (r.0.deep_view(), r.1.deep_view()) == hp_scan(tag_texts_of(html@, "b"@)),
{
    let tags = tag_texts(html, "b");
    hp_scan_tags(&tags)
}

/// Where the HP workflow stands: which answer it waits for next.
#[derive(Debug, Clone, Copy, PartialEq, Eq, Structural)]
pub enum HpStep {
    /// The support home is loading.
    Home,
    /// The model is being typed into the global search box.
    SearchBox,
    /// The search button is being clicked.
    SearchClick,
    /// The top BIOS-category result is being clicked.
    BiosLink,
    /// The pending navigation is completing.
    Navigation,
    /// The first results-table cell link is being waited for.
    FirstResult,
    /// The current URL is being read.
    ReadUrl,
    /// The support home is loading again, so the rewritten URL registers.
    HomeAgain,
    /// The date-sorted results page is loading.
    SortedPage,
    /// The revision link's HTML is being read.
    RevisionHtml,
    /// The revision target page is loading.
    RevisionPage,
    /// The revision-detail tab is being waited for.
    RevisionTab,
    /// The revision page source is being read.
    PageSource,
    /// The workflow has finished.
    Done,
    /// The workflow gave up: the sorted URL or the revision link could not
    /// be built.
    Failed,
}

/// The event shape the HP workflow accepts at each step.
pub open spec fn hp_expects(st: HpStep, ev: SessionEvent) -> bool {
    match st {
        HpStep::Home => ev is Loaded,
        HpStep::SearchBox => ev is Typed,
        HpStep::SearchClick => ev is Clicked,
        HpStep::BiosLink => ev is Clicked,
        HpStep::Navigation => ev is Loaded,
        HpStep::FirstResult => ev is Found,
        HpStep::ReadUrl => ev is CurrentUrl,
        HpStep::HomeAgain => ev is Loaded,
        HpStep::SortedPage => ev is Loaded,
        HpStep::RevisionHtml => ev is ElementHtml,
        HpStep::RevisionPage => ev is Loaded,
        HpStep::RevisionTab => ev is Found,
        HpStep::PageSource => ev is Source,
        HpStep::Done => false,
        HpStep::Failed => false,
    }
}

/// The HP workflow as a state machine: each session event advances it one
/// step and yields the next action, until the record is complete or the
/// workflow fails on a URL it cannot build.
#[derive(Debug)]
pub struct HpFlow {
    pub state: HpStep,
    pub record: Server,
    pub sorted_url: Option<String>,
}

impl HpFlow {
    /// The steps that need the rewritten URL hold one.
    pub open spec fn wf(self) -> bool {
        (self.state is HomeAgain || self.state is SortedPage) ==> self.sorted_url is Some
    }

    /// Begins the workflow for a request: an empty record, and a first
    /// action that navigates to the support home.
    pub fn start(req: &ServerIn) -> (r: (HpFlow, SessionAction))
        ensures
            r.0.state is Home,
            r.0.wf(),
            r.0.record.vendor@ == req.vendor@,
            r.0.record.model@ == req.model@,
            r.0.record.current is None,
            r.0.record.approved is None,
            is_nav(r.1, hp_home_url()),
    {
        let record = Server::new_for(req);
        let url = String::from_str("https://support.hpe.com/hpesc/public/home");
        (
            HpFlow { state: HpStep::Home, record, sorted_url: None },
            SessionAction::Navigate(url),
        )
    }

    /// Decides whether the event fits the step the workflow waits at.
    pub fn accepts(&self, ev: &SessionEvent) -> (r: bool)
        ensures
            r == hp_expects(self.state, *ev),
    {
        match self.state {
            HpStep::Home => matches!(ev, SessionEvent::Loaded),
            HpStep::SearchBox => matches!(ev, SessionEvent::Typed),
            HpStep::SearchClick => matches!(ev, SessionEvent::Clicked),
            HpStep::BiosLink => matches!(ev, SessionEvent::Clicked),
            HpStep::Navigation => matches!(ev, SessionEvent::Loaded),
            HpStep::FirstResult => matches!(ev, SessionEvent::Found),
            HpStep::ReadUrl => matches!(ev, SessionEvent::CurrentUrl(_)),
            HpStep::HomeAgain => matches!(ev, SessionEvent::Loaded),
            HpStep::SortedPage => matches!(ev, SessionEvent::Loaded),
            HpStep::RevisionHtml => matches!(ev, SessionEvent::ElementHtml(_)),
            HpStep::RevisionPage => matches!(ev, SessionEvent::Loaded),
            HpStep::RevisionTab => matches!(ev, SessionEvent::Found),
            HpStep::PageSource => matches!(ev, SessionEvent::Source(_)),
            HpStep::Done => false,
            HpStep::Failed => false,
        }
    }

    /// Advances one step on a session event. The search and navigation
    /// steps come in their fixed order; the current-URL read decides the
    /// date-sorted rewrite and fails the item where no sorted URL can be
    /// built; the revision-link read decides the target href and fails
    /// where the anchor or its href is missing; the final source read sets
    /// both version fields from the bold-tag scan.
    pub fn step(&mut self, ev: SessionEvent) -> (r: Result<Option<SessionAction>, FwPullError>)
        requires
            old(self).wf(),
            hp_expects(old(self).state, ev),
        ensures
            final(self).wf(),
            final(self).record.vendor@ == old(self).record.vendor@,
            final(self).record.model@ == old(self).record.model@,
            match old(self).state {
                HpStep::Home => {
                    &&& final(self).state is SearchBox
                    &&& final(self).record == old(self).record
                    &&& r matches Ok(Some(a)) && is_type_css(
                        a,
                        hp_search_box_css(),
                        old(self).record.model@,
                    )
                },
                HpStep::SearchBox => {
                    &&& final(self).state is SearchClick
                    &&& final(self).record == old(self).record
                    &&& r matches Ok(Some(a)) && is_click_css(a, hp_search_button_css())
                },
                HpStep::SearchClick => {
                    &&& final(self).state is BiosLink
                    &&& final(self).record == old(self).record
                    &&& r matches Ok(Some(a)) && is_click_css(a, hp_bios_link_css())
                },
                HpStep::BiosLink => {
                    &&& final(self).state is Navigation
                    &&& final(self).record == old(self).record
                    &&& r matches Ok(Some(a)) && a is WaitNavigation
                },
                HpStep::Navigation => {
                    &&& final(self).state is FirstResult
                    &&& final(self).record == old(self).record
                    &&& r matches Ok(Some(a)) && is_find_css(a, hp_revision_link_css())
                },
                HpStep::FirstResult => {
                    &&& final(self).state is ReadUrl
                    &&& final(self).record == old(self).record
                    &&& r matches Ok(Some(a)) && a is ReadCurrentUrl
                },
                HpStep::ReadUrl => {
                    &&& final(self).record == old(self).record
                    &&& ev matches SessionEvent::CurrentUrl(u) ==> match hp_date_sort_url_of(u@) {
                        Some(nu) => {
                            &&& final(self).state is HomeAgain
                            &&& final(self).sorted_url matches Some(su) && su@ == nu
                            &&& r matches Ok(Some(a)) && is_nav(a, hp_home_url())
                        },
                        None => {
                            &&& final(self).state is Failed
                            &&& r matches Err(e) && e matches FwPullError::SoupNotFound(m) && m@
                                == "Could not navigate to new url"@
                        },
                    }
                },
                HpStep::HomeAgain => {
                    &&& final(self).state is SortedPage
                    &&& final(self).record == old(self).record
                    &&& final(self).sorted_url == old(self).sorted_url
                    &&& old(self).sorted_url matches Some(su) ==> (r matches Ok(Some(a)) && is_nav(
                        a,
                        su@,
                    ))
                },
                HpStep::SortedPage => {
                    &&& final(self).state is RevisionHtml
                    &&& final(self).record == old(self).record
                    &&& r matches Ok(Some(a)) && is_read_html_css(a, hp_revision_link_css())
                },
                HpStep::RevisionHtml => {
                    &&& final(self).record == old(self).record
                    &&& ev matches SessionEvent::ElementHtml(h) ==> match first_anchor_href_of(h@) {
                        Some(href_attr) => match href_attr {
                            Some(href) => {
                                &&& final(self).state is RevisionPage
                                &&& r matches Ok(Some(a)) && is_nav(a, href)
                            },
                            None => {
                                &&& final(self).state is Failed
                                &&& r matches Err(e) && e matches FwPullError::SoupNotFound(m)
                                    && m@ == "href.to_string"@
                            },
                        },
                        None => {
                            &&& final(self).state is Failed
                            &&& r matches Err(e) && e matches FwPullError::SoupNotFound(m) && m@
                                == "a"@
                        },
                    }
                },
                HpStep::RevisionPage => {
                    &&& final(self).state is RevisionTab
                    &&& final(self).record == old(self).record
                    &&& r matches Ok(Some(a)) && is_find_css(a, hp_revision_tab_css())
                },
                HpStep::RevisionTab => {
                    &&& final(self).state is PageSource
                    &&& final(self).record == old(self).record
                    &&& r matches Ok(Some(a)) && a is ReadSource
                },
                HpStep::PageSource => {
                    &&& final(self).state is Done
                    &&& ev matches SessionEvent::Source(src) ==> {
                        &&& final(self).record.current.deep_view() == hp_scan(
                            tag_texts_of(src@, "b"@),
                        ).0
                        &&& final(self).record.approved.deep_view() == hp_scan(
                            tag_texts_of(src@, "b"@),
                        ).1
                    }
                    &&& r matches Ok(rr) && rr is None
                },
                HpStep::Done => false,
                HpStep::Failed => false,
            },
    {
        let st = self.state;
        match st {
            HpStep::Home => {
                self.state = HpStep::SearchBox;
                Ok(
                    Some(
                        SessionAction::WaitType(
                            Locator::Css(String::from_str(".magic-box-input > input:nth-child(2)")),
                            self.record.model.clone(),
                        ),
                    ),
                )
            },
            HpStep::SearchBox => {
                self.state = HpStep::SearchClick;
                Ok(
                    Some(
                        SessionAction::WaitClick(
                            Locator::Css(String::from_str(".CoveoSearchButton")),
                        ),
                    ),
                )
            },
            HpStep::SearchClick => {
                self.state = HpStep::BiosLink;
                Ok(
                    Some(
                        SessionAction::WaitClick(
                            Locator::Css(
                                String::from_str(
                                    "div.coveo-list-layout:nth-child(1) > div:nth-child(1) > div:nth-child(2) > div:nth-child(2) > div:nth-child(3) > div:nth-child(1) > a:nth-child(1)",
                                ),
                            ),
                        ),
                    ),
                )
            },
            HpStep::BiosLink => {
                self.state = HpStep::Navigation;
                Ok(Some(SessionAction::WaitNavigation))
            },
            HpStep::Navigation => {
                self.state = HpStep::FirstResult;
                Ok(
                    Some(
                        SessionAction::WaitFind(
                            Locator::Css(
                                String::from_str(
                                    "#driversAndSoftwareTableResultList > table:nth-child(3) > tr:nth-child(2) > td:nth-child(7) > div:nth-child(1) > a:nth-child(1)",
                                ),
                            ),
                        ),
                    ),
                )
            },
            HpStep::FirstResult => {
                self.state = HpStep::ReadUrl;
                Ok(Some(SessionAction::ReadCurrentUrl))
            },
            HpStep::ReadUrl => {
                match ev {
                    SessionEvent::CurrentUrl(u) => {
                        match get_hp_date_sort_url(u.as_str()) {
                            Some(nu) => {
                                self.sorted_url = Some(nu);
                                self.state = HpStep::HomeAgain;
                                Ok(
                                    Some(
                                        SessionAction::Navigate(
                                            String::from_str(
                                                "https://support.hpe.com/hpesc/public/home",
                                            ),
                                        ),
                                    ),
                                )
                            },
                            None => {
                                self.state = HpStep::Failed;
                                Err(
                                    FwPullError::SoupNotFound(
                                        String::from_str("Could not navigate to new url"),
                                    ),
                                )
                            },
                        }
                    },
                    _ => unreached(),
                }
            },
            HpStep::HomeAgain => {
                self.state = HpStep::SortedPage;
                match &self.sorted_url {
                    Some(su) => Ok(Some(SessionAction::Navigate(su.clone()))),
                    None => unreached(),
                }
            },
            HpStep::SortedPage => {
                self.state = HpStep::RevisionHtml;
                Ok(
                    Some(
                        SessionAction::ReadElementHtml(
                            Locator::Css(
                                String::from_str(
                                    "#driversAndSoftwareTableResultList > table:nth-child(3) > tr:nth-child(2) > td:nth-child(7) > div:nth-child(1) > a:nth-child(1)",
                                ),
                            ),
                        ),
                    ),
                )
            },
            HpStep::RevisionHtml => {
                match ev {
                    SessionEvent::ElementHtml(h) => {
                        match first_anchor_href(h.as_str()) {
                            Some(Some(href)) => {
                                self.state = HpStep::RevisionPage;
                                Ok(Some(SessionAction::Navigate(href)))
                            },
                            Some(None) => {
                                self.state = HpStep::Failed;
                                Err(FwPullError::SoupNotFound(String::from_str("href.to_string")))
                            },
                            None => {
                                self.state = HpStep::Failed;
                                Err(FwPullError::SoupNotFound(String::from_str("a")))
                            },
                        }
                    },
                    _ => unreached(),
                }
            },
            HpStep::RevisionPage => {
                self.state = HpStep::RevisionTab;
                Ok(
                    Some(
                        SessionAction::WaitFind(Locator::Css(String::from_str("#ui-id-6"))),
                    ),
                )
            },
            HpStep::RevisionTab => {
                self.state = HpStep::PageSource;
                Ok(Some(SessionAction::ReadSource))
            },
            HpStep::PageSource => {
                match ev {
                    SessionEvent::Source(src) => {
                        let versions = hp_versions_from_source(src.as_str());
                        self.record.current = versions.0;
                        self.record.approved = versions.1;
                        self.state = HpStep::Done;
                        Ok(None)
                    },
                    _ => unreached(),
                }
            },
            HpStep::Done => unreached(),
            HpStep::Failed => unreached(),
        }
    }

    /// Hands the finished record out.
    pub fn into_record(self) -> (r: Server)
        requires
            self.state is Done,
        ensures
            r == self.record,
    {
        self.record
    }
}

} // verus!
