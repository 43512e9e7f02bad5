//! Payloads that the server sends with an error status.
pub mod auth;

use std::collections::HashMap;
use vstd::prelude::*;

verus! {

/// Validation failures, keyed by the name of the field they belong to. Each
/// field carries its messages in the order in which the server listed them.
#[derive(Clone, Debug, Eq, PartialEq)]
pub struct ErrorInfo {
    pub errors: HashMap<String, Vec<String>>,
}

impl View for ErrorInfo {
    type V = Map<Seq<char>, Seq<Seq<char>>>;

    /// The mapping from field name to messages, as text.
    open spec fn view(&self) -> Map<Seq<char>, Seq<Seq<char>>> {
        self.errors.deep_view()
    }
}

} // verus!
