//! The one place the library reads HTML: trusted views of what the `soup`
//! parser finds in a page. Each result is given a name, and everything
//! done with the text afterwards is verified against that name.

use vstd::prelude::*;

use soup::{NodeExt, QueryBuilderExt, Soup};

verus! {

/// The text of each element with the given tag name in the HTML, in
/// document order.
pub uninterp spec fn tag_texts_of(html: Seq<char>, tag: Seq<char>) -> Seq<Seq<char>>;

/// The href attribute of the first anchor element in the HTML: nothing
/// where no anchor stands, `Some(None)` where the first anchor has no
/// href.
pub uninterp spec fn first_anchor_href_of(html: Seq<char>) -> Option<Option<Seq<char>>>;

/// Relies on soup's Soup::new, QueryBuilderExt::tag and find_all, and
/// NodeExt::text: parses the HTML and yields the text of every element
/// with the given tag name, in document order.
#[verifier::external_body]
pub(crate) fn tag_texts(html: &str, tag: &str) -> (r: Vec<String>)
    ensures
        r.deep_view() == tag_texts_of(html@, tag@),
{
    let soup = Soup::new(html);
    let mut out = Vec::new();
    for node in soup.tag(tag).find_all() {
        out.push(node.text());
    }
    out
}

/// Relies on soup's Soup::new, QueryBuilderExt::tag and find, and
/// NodeExt::get: parses the HTML, takes the first anchor element, and
/// reads its href attribute.
#[verifier::external_body]
pub(crate) fn first_anchor_href(html: &str) -> (r: Option<Option<String>>)
    ensures
        r.deep_view() == first_anchor_href_of(html@),
{
    let soup = Soup::new(html);
    match soup.tag("a").find() {
        Some(a) => Some(a.get("href")),
        None => None,
    }
}

} // verus!
