//! The message envelope of the authentication endpoints.
use vstd::prelude::*;

verus! {

/// A single human-readable message, as sent with the statuses that explain
/// themselves in prose.
#[derive(Clone, Debug, Eq, PartialEq)]
pub struct ApiResult {
    pub result: String,
}

impl View for ApiResult {
    type V = Seq<char>;

    /// The message text.
    open spec fn view(&self) -> Seq<char> {
        self.result@
    }
}

} // verus!
