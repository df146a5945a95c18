pub mod probe;
pub mod profile;
pub mod status;
pub mod text;

use vstd::prelude::*;

verus! {

/// The MIME type every rendered configuration profile is served under.
pub const PROFILE_CONTENT_TYPE: &'static str = "application/x-apple-aspen-config";

/// The content type of a rendered profile, as an owned string.
pub fn profile_content_type() -> (r: String)
    ensures
        r@ == PROFILE_CONTENT_TYPE@,
{
    PROFILE_CONTENT_TYPE.to_owned()
}

} // verus!
