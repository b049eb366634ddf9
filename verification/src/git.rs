//! The client for one remote repository.

use vstd::prelude::*;

verus! {

/// A client bound to one remote repository, named by a URL or a path that is
/// kept exactly as given and never changed. A `Git` views as that text.
pub struct Git {
    url: String,
}

impl View for Git {
    type V = Seq<char>;

    closed spec fn view(&self) -> Seq<char> {
        self.url@
    }
}

impl Git {
    /// A client for the remote at `url`. Every string is accepted as it is:
    /// nothing is checked, normalised or contacted here, so whatever is
    /// wrong with `url` shows only when the remote is queried.
    pub fn from_url(url: &str) -> (git: Git)
        ensures
            git@ == url@,
    {
        Git { url: url.to_string() }
    }

    /// The URL or path this client was made with.
    pub fn url(&self) -> (url: &str)
        ensures
            url@ == self@,
    {
        self.url.as_str()
    }
}

} // verus!
