//! Data carried to and from the page-rendering service, an external
//! collaborator reached by the surrounding application.

use vstd::prelude::*;

verus! {

/// The rendering service's answer: the generated page and the credits left.
pub struct GenerateResponse {
    pub html: String,
    pub credits_remaining: u64,
}

/// The envelope the application hands to its caller for a rendering request.
pub struct RenderResponse {
    pub success: bool,
    pub html: Option<String>,
    pub credits_remaining: Option<u64>,
    pub error: Option<String>,
}

} // verus!
