//! What the command line asks for.

use vstd::prelude::*;

verus! {

/// The address of the newest articles, which are shown when no category is
/// asked for.
pub const LATEST_URL: &'static str = "https://nos.nl/nieuws/laatste";

/// What the address of every category starts with.
pub const CATEGORY_URL: &'static str = "https://nos.nl/nieuws/";

/// The options of the command line.
#[derive(Debug)]
pub struct Args {
    /// Category to show articles for.
    pub category: String,
    /// Open a random article.
    pub random: bool,
}

/// The address of the list for `category`.
pub open spec fn list_url(category: Seq<char>) -> Seq<char> {
    if category.len() == 0 {
        LATEST_URL@
    } else {
        CATEGORY_URL@ + category
    }
}

impl Args {
    /// The address that the list of articles is fetched from.
    pub fn url(&self) -> (url: String)
        ensures
            url@ == list_url(self.category@),
    {
        if self.category.as_str().is_empty() {
            String::from_str(LATEST_URL)
        } else {
            let mut url = String::from_str(CATEGORY_URL);
            url.append(self.category.as_str());
            url
        }
    }
}

} // verus!
