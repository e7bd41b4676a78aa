//! The focusable elements of the screen and the effects they ask for.
use vstd::prelude::*;

verus! {

/// A side effect that an element asks of the rest of the application.
pub enum EffectCommand {
    /// Load a request's method and URL into the request form.
    SetRequest { method: String, url: String },
    /// No effect.
    Nothing,
}

/// The element that has the focus.
#[derive(Clone, Copy, Debug, PartialEq, Eq, Structural)]
pub enum ElementType {
    Collections,
    MethodSelector,
    UrlInput,
}

impl ElementType {
    /// The next element in focus order, wrapping around.
    pub fn next(&self) -> (r: Self)
        ensures
            r == (match *self {
                ElementType::Collections => ElementType::MethodSelector,
                ElementType::MethodSelector => ElementType::UrlInput,
                ElementType::UrlInput => ElementType::Collections,
            }),
    {
        match self {
            ElementType::Collections => ElementType::MethodSelector,
            ElementType::MethodSelector => ElementType::UrlInput,
            ElementType::UrlInput => ElementType::Collections,
        }
    }

    /// The previous element in focus order, wrapping around.
    pub fn prev(&mut self) -> (r: Self)
        ensures
            *final(self) == *old(self),
            r == (match *old(self) {
                ElementType::Collections => ElementType::UrlInput,
                ElementType::MethodSelector => ElementType::Collections,
                ElementType::UrlInput => ElementType::MethodSelector,
            }),
    {
        match self {
            ElementType::Collections => ElementType::UrlInput,
            ElementType::MethodSelector => ElementType::Collections,
            ElementType::UrlInput => ElementType::MethodSelector,
        }
    }
}

} // verus!
