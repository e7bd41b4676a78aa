//! Command-line options of the one-shot request mode.
use vstd::prelude::*;

verus! {

/// The HTTP method given on the command line.
#[derive(Clone, Copy, Debug, PartialEq, Eq, Structural)]
pub enum CmdHttpMethod {
    Get,
    Post,
    Put,
    Patch,
    Delete,
}

/// The lower-case name by which a method is given on the command line.
pub open spec fn cmd_method_name(m: CmdHttpMethod) -> Seq<char> {
    match m {
        CmdHttpMethod::Get => "get"@,
        CmdHttpMethod::Post => "post"@,
        CmdHttpMethod::Put => "put"@,
        CmdHttpMethod::Patch => "patch"@,
        CmdHttpMethod::Delete => "delete"@,
    }
}

impl CmdHttpMethod {
    pub fn as_str(&self) -> (r: &'static str)
        ensures
            r@ == cmd_method_name(*self),
    {
        match self {
            CmdHttpMethod::Get => "get",
            CmdHttpMethod::Post => "post",
            CmdHttpMethod::Put => "put",
            CmdHttpMethod::Patch => "patch",
            CmdHttpMethod::Delete => "delete",
        }
    }
}

/// The parsed command line.
pub struct CmdArgs {
    pub url: Option<String>,
    pub method: Option<CmdHttpMethod>,
    pub headers: Option<String>,
    pub body: Option<String>,
    pub project: Option<String>,
}

/// Why the command line does not describe a request.
#[derive(Clone, Copy, Debug, PartialEq, Eq, Structural)]
pub enum CliToolError {
    MissingUrl,
}

/// Why the options of the first command-line mode could not be read.
#[derive(Clone, Copy, Debug, PartialEq, Eq, Structural)]
pub enum CliAppError {
    ParseCliArgs,
}

} // verus!
