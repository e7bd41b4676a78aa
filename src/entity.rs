//! Records of the project data file.
use vstd::prelude::*;

verus! {

/// An HTTP method as the data file records it.
#[derive(Clone, Copy, Debug, PartialEq, Eq, Structural)]
pub enum RequestMethod {
    Head,
    Get,
    Post,
    Put,
    Connect,
    Trace,
    Delete,
    Patch,
    Options,
}

/// A saved request.
pub struct Request {
    pub name: String,
    pub method: RequestMethod,
    pub url: String,
}

/// A named collection of saved requests.
pub struct Collection {
    pub name: String,
    pub requests: Vec<Request>,
}

/// A project: its name and its collections.
pub struct Project {
    pub name: String,
    pub collections: Vec<Collection>,
}

} // verus!
