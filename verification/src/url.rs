use vstd::prelude::*;
use vstd::string::StringExecFns;

use crate::decimal::decimal_digits;
use crate::decimal::decimal_string;

verus! {

/// The request URL for one page: the base address, the fixed content path,
/// the workspace key, the page size limit, the starting offset, and the
/// expansion of the rendered body field.
pub open spec fn page_url_spec(base: Seq<char>, space_key: Seq<char>, limit: nat, start: nat) -> Seq<
    char,
> {
    base + "/rest/api/content?spaceKey="@ + space_key + "&limit="@ + decimal_digits(limit)
        + "&start="@ + decimal_digits(start) + "&expand=body.view"@
}

/// Builds the URL for one page request, character for character as
/// `page_url_spec` states it.
pub fn build_page_url(base: &str, space_key: &str, limit: usize, start: usize) -> (u: String)
    ensures
        u@ == page_url_spec(base@, space_key@, limit as nat, start as nat),
{
    let mut u = base.to_owned();
    u.append("/rest/api/content?spaceKey=");
    u.append(space_key);
    u.append("&limit=");
    let limit_digits = decimal_string(limit);
    u.append(limit_digits.as_str());
    u.append("&start=");
    let start_digits = decimal_string(start);
    u.append(start_digits.as_str());
    u.append("&expand=body.view");
    u
}

} // verus!
