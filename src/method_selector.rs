//! The HTTP method picker's state.
use vstd::prelude::*;

verus! {

/// An HTTP method that the request form can send.
#[derive(Clone, Copy, Debug, PartialEq, Eq, Structural)]
pub enum UrlMethod {
    Get,
    Post,
    Delete,
    Put,
}

/// The name of a method as it is shown and sent.
pub open spec fn method_name(m: UrlMethod) -> Seq<char> {
    match m {
        UrlMethod::Get => "GET"@,
        UrlMethod::Post => "POST"@,
        UrlMethod::Delete => "DELETE"@,
        UrlMethod::Put => "PUT"@,
    }
}

/// The method a name stands for; any name that is not a known one means GET.
pub open spec fn method_of_name(s: Seq<char>) -> UrlMethod {
    if s == "POST"@ {
        UrlMethod::Post
    } else if s == "DELETE"@ {
        UrlMethod::Delete
    } else if s == "PUT"@ {
        UrlMethod::Put
    } else {
        UrlMethod::Get
    }
}

impl UrlMethod {
    /// The method's name.
    pub fn to_string(&self) -> (r: String)
        ensures
            r@ == method_name(*self),
    {
        let name = match self {
            UrlMethod::Get => "GET",
            UrlMethod::Post => "POST",
            UrlMethod::Delete => "DELETE",
            UrlMethod::Put => "PUT",
        };
        name.to_owned()
    }

    /// The method after this one in the picker's order GET, POST, PUT, DELETE,
    /// wrapping around.
    pub fn next(&self) -> (r: Self)
        ensures
            r == (match *self {
                UrlMethod::Get => UrlMethod::Post,
                UrlMethod::Post => UrlMethod::Put,
                UrlMethod::Put => UrlMethod::Delete,
                UrlMethod::Delete => UrlMethod::Get,
            }),
    {
        match self {
            UrlMethod::Get => UrlMethod::Post,
            UrlMethod::Post => UrlMethod::Put,
            UrlMethod::Put => UrlMethod::Delete,
            UrlMethod::Delete => UrlMethod::Get,
        }
    }

    /// The method before this one in the picker's order, wrapping around.
    pub fn prev(&self) -> (r: Self)
        ensures
            r == (match *self {
                UrlMethod::Get => UrlMethod::Delete,
                UrlMethod::Post => UrlMethod::Get,
                UrlMethod::Put => UrlMethod::Post,
                UrlMethod::Delete => UrlMethod::Put,
            }),
    {
        match self {
            UrlMethod::Get => UrlMethod::Delete,
            UrlMethod::Post => UrlMethod::Get,
            UrlMethod::Put => UrlMethod::Post,
            UrlMethod::Delete => UrlMethod::Put,
        }
    }
}

impl<'a> From<&'a str> for UrlMethod {
    /// The method that `value` names; GET for anything else.
    fn from(value: &'a str) -> (r: Self)
        ensures
            r == method_of_name(value@),
    {
        let v = value.to_owned();
        if v == "POST".to_owned() {
            UrlMethod::Post
        } else if v == "DELETE".to_owned() {
            UrlMethod::Delete
        } else if v == "PUT".to_owned() {
            UrlMethod::Put
        } else {
            UrlMethod::Get
        }
    }
}

impl<'a> vstd::std_specs::convert::FromSpecImpl<&'a str> for UrlMethod {
    open spec fn obeys_from_spec() -> bool {
        true
    }

    open spec fn from_spec(v: &'a str) -> Self {
        method_of_name(v@)
    }
}

impl Default for UrlMethod {
    fn default() -> (r: Self)
        ensures
            r == UrlMethod::Get,
    {
        UrlMethod::Get
    }
}

/// The method picker's state: the method chosen.
pub struct MethodSelectorState {
    pub method_type: UrlMethod,
}

impl Default for MethodSelectorState {
    fn default() -> (r: Self)
        ensures
            r.method_type == UrlMethod::Get,
    {
        MethodSelectorState { method_type: UrlMethod::Get }
    }
}

impl MethodSelectorState {
    pub fn set_method(&mut self, method: UrlMethod)
        ensures
            final(self).method_type == method,
    {
        self.method_type = method;
    }

    pub fn method(&self) -> (r: &UrlMethod)
        ensures
            *r == self.method_type,
    {
        &self.method_type
    }
}

} // verus!
