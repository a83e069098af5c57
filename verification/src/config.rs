//! The configuration title: the display name the client announces itself
//! under. The rest of the configuration (endpoint URL and the numeric
//! sampling parameters) lives with the unverified shell that loads it.

use vstd::prelude::*;

verus! {

/// A named title for the client.
#[derive(Debug, PartialEq, Eq)]
pub struct Title {
    name: String,
}

impl Title {
    /// The name carried by this title.
    pub closed spec fn name_view(self) -> Seq<char> {
        self.name@
    }

    /// Wrap a name as a title.
    pub fn new(name: String) -> (t: Title)
        ensures
            t.name_view() == name@,
    {
        Title { name }
    }

    /// Read the name back.
    pub fn name(&self) -> (r: &str)
        ensures
            r@ == self.name_view(),
    {
        self.name.as_str()
    }
}

} // verus!
