//! The failures that the extraction logic itself can decide: an
//! unrecognized vendor name, and a piece of page text that lacked an
//! element the workflow needed. Transport failures (navigation, HTTP,
//! file I/O) belong to the surrounding program.

use vstd::prelude::*;

verus! {

/// A per-item extraction failure. The first two are decided by the
/// library's own logic; the rest carry, as plain text, what the
/// surrounding program reported of a remote session, an HTTP fetch, a
/// file, or serialization, so a batch can keep them as outcomes.
#[derive(Debug, Clone)]
pub enum FwPullError {
    /// The vendor text matched none of the closed set.
    VendorParse,
    /// The named piece was missing from the HTML the workflow read.
    SoupNotFound(String),
    /// The automation session failed: a navigation, a connection, or an
    /// element that never appeared within its bounded wait.
    Session(String),
    /// The HTTP fetch of a static page failed.
    Http(String),
    /// A file could not be read or written.
    Io(String),
    /// Input or output could not be serialized.
    Json(String),
}

impl FwPullError {
    /// A short description, for diagnostics.
    pub fn message(&self) -> (r: String)
        ensures
            self matches FwPullError::VendorParse ==> r@ == "Unknown vendor"@,
            self matches FwPullError::SoupNotFound(i) ==> r@ == "Could not find "@ + i@ + " in HTML"@,
            self matches FwPullError::Session(m) ==> r@ == m@,
            self matches FwPullError::Http(m) ==> r@ == m@,
            self matches FwPullError::Io(m) ==> r@ == m@,
            self matches FwPullError::Json(m) ==> r@ == m@,
    {
        match self {
            FwPullError::VendorParse => String::from_str("Unknown vendor"),
            FwPullError::SoupNotFound(i) => {
                let mut m = String::from_str("Could not find ");
                m.append(i.as_str());
                m.append(" in HTML");
                m
            },
            FwPullError::Session(m) => m.clone(),
            FwPullError::Http(m) => m.clone(),
            FwPullError::Io(m) => m.clone(),
            FwPullError::Json(m) => m.clone(),
        }
    }
}

} // verus!
