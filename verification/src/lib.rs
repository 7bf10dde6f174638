//! Retrieval of current and vendor-approved firmware version strings for
//! server models, by driving per-vendor extraction workflows over vendor
//! support pages.
//!
//! The decision logic lives here, fully verified: vendor dispatch, the URL
//! slug, the version-pattern scanners, the per-vendor extraction rules, the
//! Dell and HP workflow state machines, and batch collection. Remote
//! automation, HTTP fetching and file I/O are left to the surrounding
//! program, which feeds page text and session events into this library.

pub mod batch;
pub mod dell;
pub mod error;
pub mod hp;
pub mod html;
pub mod oracle;
pub mod pattern;
pub mod session;
pub mod text;

use vstd::prelude::*;

verus! {

use crate::error::FwPullError;
use crate::text::{lower_seq, slug_seq, to_lower, str_eq, push_char};

/// The closed set of supported hardware vendors.
#[derive(Clone, Copy, Debug, PartialEq, Eq, Structural)]
pub enum Vendor {
    Dell,
    Hp,
    Oracle,
}

/// What a vendor name parses to: the closed mapping is total over
/// {"dell", "hp", "oracle"} after ASCII case folding, and rejects all else.
pub open spec fn parse_vendor(s: Seq<char>) -> Option<Vendor> {
    if lower_seq(s) == "dell"@ {
        Some(Vendor::Dell)
    } else if lower_seq(s) == "hp"@ {
        Some(Vendor::Hp)
    } else if lower_seq(s) == "oracle"@ {
        Some(Vendor::Oracle)
    } else {
        None
    }
}

impl Vendor {
    /// Parses free vendor text, case-insensitively, into the closed set;
    /// unrecognized text is a parse failure, never a partial match.
    pub fn from_str(s: &str) -> (r: Result<Vendor, FwPullError>)
        ensures
            match parse_vendor(s@) {
                Some(v) => r matches Ok(rv) && rv == v,
                None => r matches Err(e) && e matches FwPullError::VendorParse,
            },
    {
        let low = to_lower(s);
        if str_eq(low.as_str(), "dell") {
            Ok(Vendor::Dell)
        } else if str_eq(low.as_str(), "hp") {
            Ok(Vendor::Hp)
        } else if str_eq(low.as_str(), "oracle") {
            Ok(Vendor::Oracle)
        } else {
            Err(FwPullError::VendorParse)
        }
    }
}

/// Vendor parsing does not see case: a string and its lowered form parse
/// to the same result.
pub proof fn lemma_vendor_parse_case_insensitive(s: Seq<char>)
    ensures
        parse_vendor(lower_seq(s)) == parse_vendor(s),
{
    crate::text::lemma_lower_seq_idempotent(s);
}

/// One input request: free-text vendor and model.
#[derive(Debug)]
pub struct ServerIn {
    pub vendor: String,
    pub model: String,
}

/// One output record: the input vendor and model echoed, with the current
/// and the approved firmware version as the vendor page yielded them.
/// Either field may be absent when the page held no match; that is not an
/// error.
#[derive(Debug)]
pub struct Server {
    pub vendor: String,
    pub model: String,
    pub current: Option<String>,
    pub approved: Option<String>,
}

/// Duplicates an optional version string.
fn clone_opt_string(o: &Option<String>) -> (r: Option<String>)
    ensures
        r == *o,
{
    match o {
        Some(s) => Some(s.clone()),
        None => None,
    }
}

impl Clone for Server {
    /// A clone is the same record.
    fn clone(&self) -> (r: Server)
        ensures
            r == *self,
    {
        Server {
            vendor: self.vendor.clone(),
            model: self.model.clone(),
            current: clone_opt_string(&self.current),
            approved: clone_opt_string(&self.approved),
        }
    }
}

impl Server {
    /// An empty record for a request: fields echoed, no versions yet.
    pub fn new_for(req: &ServerIn) -> (r: Server)
        ensures
            r.vendor@ == req.vendor@,
            r.model@ == req.model@,
            r.current is None,
            r.approved is None,
    {
        Server {
            vendor: req.vendor.clone(),
            model: req.model.clone(),
            current: None,
            approved: None,
        }
    }
}

/// Lower-cases the model and replaces each space with a hyphen: the URL
/// slug for the Dell driver-listing page.
pub fn dell_model(model: String) -> (r: String)
    ensures
        r@ == slug_seq(model@),
{
    let n = model.as_str().unicode_len();
    let mut out = String::new();
    let mut i: usize = 0;
    while i < n
        invariant
            i <= n,
            n == model@.len(),
            out@.len() == i,
            forall|j: int| 0 <= j < i ==> out@[j] == crate::text::slug_char(model@[j]),
        decreases n - i,
    {
        let c = model.as_str().get_char(i);
        push_char(&mut out, crate::text::slug_char_exec(c));
        i = i + 1;
    }
    proof {
        assert(out@ =~= slug_seq(model@));
    }
    out
}

/// The slug is idempotent: slugging a slug changes nothing.
pub proof fn lemma_slug_idempotent(s: Seq<char>)
    ensures
        slug_seq(slug_seq(s)) == slug_seq(s),
{
    crate::text::lemma_slug_seq_idempotent(s);
}

} // verus!
