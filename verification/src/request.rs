//! The computed parts of a request: the URL path built from a platform's
//! short code and an endpoint fragment, and the query string selecting the
//! display language. Issuing the request itself is the caller's business.

use vstd::prelude::*;
use vstd::string::StringExecFns;

use crate::model::{Language, PlatformType};

verus! {

/// The root of the status API.
pub const API_URL: &'static str = "https://api-warframestat.us";

/// The URL path for a request: the platform's short code followed by the
/// endpoint path fragment (for example a code `"pc"` with fragment
/// `"/alerts"`).
pub fn request_path(platform: PlatformType, path: &str) -> (r: String)
    ensures
        r@ == platform.spec_code() + path@,
{
    let mut s = platform.code().to_owned();
    s.append(path);
    s
}

/// The query string that selects the display language.
pub fn language_query(language: Language) -> (r: String)
    ensures
        r@ == "language="@ + language.spec_code(),
{
    let mut s = String::from_str("language=");
    s.append(language.code());
    s
}

} // verus!
