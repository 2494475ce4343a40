//! Failures of the platform, as the registry hands them on.

use vstd::prelude::*;
use vstd::string::StringExecFns;

verus! {

/// A call to the platform failed. The registry never retries: the failure
/// goes back to whoever asked, with the platform's own words.
#[derive(Debug, Clone, PartialEq, Eq)]
pub struct PlatformError {
    /// What the platform said.
    pub cause: String,
}

impl View for PlatformError {
    type V = Seq<char>;

    open spec fn view(&self) -> Seq<char> {
        self.cause@
    }
}

/// The text shown to the invoker when a call to the platform failed with
/// `cause`.
pub open spec fn failure_text(cause: Seq<char>) -> Seq<char> {
    seq!['E', 'r', 'r', 'o', 'r', ':', ' '] + cause
}

impl PlatformError {
    /// The failure with the platform's words `cause`.
    pub fn new(cause: &str) -> (error: PlatformError)
        ensures
            error@ == cause@,
    {
        PlatformError { cause: String::from_str(cause) }
    }

    /// The text shown to the invoker: a generic failure notice that embeds
    /// the cause.
    pub fn message(&self) -> (text: String)
        ensures
            text@ == failure_text(self@),
    {
        proof {
            reveal_strlit("Error: ");
        }
        let mut text = String::from_str("Error: ");
        assert(text@ =~= seq!['E', 'r', 'r', 'o', 'r', ':', ' ']);
        text.append(self.cause.as_str());
        text
    }
}

} // verus!
