//! The URL text box's state.
use vstd::prelude::*;

verus! {

/// The URL typed so far.
pub struct UrlInputState {
    url: String,
}

impl UrlInputState {
    pub closed spec fn spec_url(&self) -> Seq<char> {
        self.url@
    }

    pub fn new(url: &str) -> (r: Self)
        ensures
            r.spec_url() == url@,
    {
        UrlInputState { url: url.to_owned() }
    }

    pub fn set_url(&mut self, url: String)
        ensures
            final(self).spec_url() == url@,
    {
        self.url = url;
    }

    pub fn url(&self) -> (r: &str)
        ensures
            r@ == self.spec_url(),
    {
        self.url.as_str()
    }
}

impl Default for UrlInputState {
    fn default() -> (r: Self)
        ensures
            r.spec_url() == Seq::<char>::empty(),
    {
        UrlInputState { url: String::new() }
    }
}

} // verus!
