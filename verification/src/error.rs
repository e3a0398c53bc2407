//! The errors that construction can end in.

use vstd::prelude::*;
use vstd::string::StringExecFns;

verus! {

/// Why an engine or a page could not be constructed.
#[derive(Debug, Clone, Copy, PartialEq, Eq, Structural)]
pub enum Error {
    /// The native factory gave no engine, or the engine never reported ready.
    CreateWebviewError,
    /// The native factory gave no page, or the page's first load failed.
    CreatePageError,
}

impl Error {
    /// The text of an error: the name of its variant.
    pub open spec fn text(self) -> Seq<char> {
        match self {
            Error::CreateWebviewError => "CreateWebviewError"@,
            Error::CreatePageError => "CreatePageError"@,
        }
    }

    /// The error as a string, for display.
    pub fn message(&self) -> (s: String)
        ensures
            s@ == self.text(),
    {
        match self {
            Error::CreateWebviewError => String::from_str("CreateWebviewError"),
            Error::CreatePageError => String::from_str("CreatePageError"),
        }
    }
}

} // verus!
