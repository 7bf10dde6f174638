//! The vocabulary between a vendor workflow and the remote
//! browser-automation session: the actions a workflow asks for and the
//! events the session reports back. The workflows decide; the surrounding
//! program performs each action against the remote endpoint and hands the
//! outcome back as the matching event.

use vstd::prelude::*;

verus! {

/// One page element, addressed by a CSS selector or an XPath expression.
/// The workflow, not the session, decides which to use.
#[derive(Debug, Clone)]
pub enum Locator {
    Css(String),
    XPath(String),
}

/// One remote round-trip a workflow asks the session for. Every wait is
/// bounded: an element that never appears within the session's timeout
/// fails the item, and the workflow is simply dropped.
#[derive(Debug, Clone)]
pub enum SessionAction {
    /// Navigate to the URL and wait for page-load completion.
    Navigate(String),
    /// Wait for the element, then click it.
    WaitClick(Locator),
    /// Wait for the element, then type the text into it.
    WaitType(Locator, String),
    /// Wait for the element to be present.
    WaitFind(Locator),
    /// Wait for a pending navigation to complete.
    WaitNavigation,
    /// Read the full page source.
    ReadSource,
    /// Wait for the element, then read its inner HTML.
    ReadElementHtml(Locator),
    /// Read the current URL.
    ReadCurrentUrl,
}

/// The successful outcome of one action, as the session reports it back.
/// Each action has exactly one matching event shape.
#[derive(Debug, Clone)]
pub enum SessionEvent {
    /// A navigation completed.
    Loaded,
    /// The element was found and clicked.
    Clicked,
    /// The text was typed into the element.
    Typed,
    /// The element is present.
    Found,
    /// The full page source.
    Source(String),
    /// The element's inner HTML.
    ElementHtml(String),
    /// The current URL.
    CurrentUrl(String),
}

/// The event shape that answers each action shape.
pub open spec fn answers(a: SessionAction, ev: SessionEvent) -> bool {
    match a {
        SessionAction::Navigate(_) => ev is Loaded,
        SessionAction::WaitClick(_) => ev is Clicked,
        SessionAction::WaitType(_, _) => ev is Typed,
        SessionAction::WaitFind(_) => ev is Found,
        SessionAction::WaitNavigation => ev is Loaded,
        SessionAction::ReadSource => ev is Source,
        SessionAction::ReadElementHtml(_) => ev is ElementHtml,
        SessionAction::ReadCurrentUrl => ev is CurrentUrl,
    }
}

/// The action navigates to exactly this URL.
pub open spec fn is_nav(a: SessionAction, url: Seq<char>) -> bool {
    a matches SessionAction::Navigate(u) && u@ == url
}

/// The action clicks the element at exactly this XPath.
pub open spec fn is_click_xpath(a: SessionAction, p: Seq<char>) -> bool {
    a matches SessionAction::WaitClick(Locator::XPath(s)) && s@ == p
}

/// The action clicks the element at exactly this CSS selector.
pub open spec fn is_click_css(a: SessionAction, p: Seq<char>) -> bool {
    a matches SessionAction::WaitClick(Locator::Css(s)) && s@ == p
}

/// The action types exactly this text into the element at this CSS
/// selector.
pub open spec fn is_type_css(a: SessionAction, p: Seq<char>, text: Seq<char>) -> bool {
    a matches SessionAction::WaitType(Locator::Css(s), t) && s@ == p && t@ == text
}

/// The action waits for the element at exactly this CSS selector.
pub open spec fn is_find_css(a: SessionAction, p: Seq<char>) -> bool {
    a matches SessionAction::WaitFind(Locator::Css(s)) && s@ == p
}

/// The action reads the inner HTML of the element at exactly this CSS
/// selector.
pub open spec fn is_read_html_css(a: SessionAction, p: Seq<char>) -> bool {
    a matches SessionAction::ReadElementHtml(Locator::Css(s)) && s@ == p
}

} // verus!
