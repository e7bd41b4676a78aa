//! The request line's state: a method next to a URL.
pub use crate::method_selector::UrlMethod;
use vstd::prelude::*;

verus! {

/// The method and URL of the request being written.
pub struct UrlInputState {
    method: UrlMethod,
    url: String,
}

impl UrlInputState {
    pub closed spec fn spec_method(&self) -> UrlMethod {
        self.method
    }

    pub closed spec fn spec_url(&self) -> Seq<char> {
        self.url@
    }

    pub fn new(method: UrlMethod, url: &str) -> (r: Self)
        ensures
            r.spec_method() == method,
            r.spec_url() == url@,
    {
        UrlInputState { method, url: url.to_owned() }
    }

    pub fn set_method(&mut self, method: UrlMethod)
        ensures
            final(self).spec_method() == method,
            final(self).spec_url() == old(self).spec_url(),
    {
        self.method = method;
    }

    pub fn set_url(&mut self, url: String)
        ensures
            final(self).spec_method() == old(self).spec_method(),
            final(self).spec_url() == url@,
    {
        self.url = url;
    }

    pub fn method(&self) -> (r: &UrlMethod)
        ensures
            *r == self.spec_method(),
    {
        &self.method
    }

    pub fn url(&self) -> (r: &str)
        ensures
            r@ == self.spec_url(),
    {
        self.url.as_str()
    }
}

impl Default for UrlInputState {
    fn default() -> (r: Self)
        ensures
            r.spec_method() == UrlMethod::Get,
            r.spec_url() == Seq::<char>::empty(),
    {
        UrlInputState { method: UrlMethod::Get, url: String::new() }
    }
}

} // verus!
