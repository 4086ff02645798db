use vstd::prelude::*;
use vstd::string::StringExecFns;

use crate::decimal::decimal_digits;
use crate::decimal::decimal_string;

verus! {

/// The one failure record a fetch can produce: the URL that was requested,
/// the HTTP status of the response if one was received at all, and the raw
/// response body (or the transport error's description) as diagnostic text.
///
/// `status` is `None` exactly when the transport failed before any response
/// was received, so "no status" is never confused with a real status code.
#[derive(Debug, PartialEq, Eq)]
pub struct ConfluenceError {
    pub url: String,
    pub status: Option<u16>,
    pub body: String,
}

/// The status part of an error description: the decimal status code, or
/// `none` when the transport failed before a response arrived.
pub open spec fn status_text(status: Option<u16>) -> Seq<char> {
    match status {
        Some(code) => decimal_digits(code as nat),
        None => "none"@,
    }
}

impl ConfluenceError {
    /// The full diagnostic line for this failure.
    pub open spec fn describe_spec(self) -> Seq<char> {
        "Error downloading page from Confluence: URL: "@ + self.url@ + ", status: "@
            + status_text(self.status) + ", body: "@ + self.body@
    }

    /// Renders the failure as one diagnostic line naming the URL, the status
    /// (or its absence) and the body text.
    pub fn describe(&self) -> (s: String)
        ensures
            s@ == self.describe_spec(),
    {
        let mut s = "Error downloading page from Confluence: URL: ".to_owned();
        s.append(self.url.as_str());
        s.append(", status: ");
        match self.status {
            Some(code) => {
                let digits = decimal_string(code as usize);
                s.append(digits.as_str());
            },
            None => {
                s.append("none");
            },
        }
        s.append(", body: ");
        s.append(self.body.as_str());
        s
    }
}

} // verus!
