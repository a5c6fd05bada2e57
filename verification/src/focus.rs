//! The focus state machine over the five form fields.
//!
//! Exactly one field owns keyboard focus at a time; the only transitions
//! are a single-step advance and a single-step retreat through the fixed
//! cyclic order method, URL, headers, body, response.

use vstd::prelude::*;

verus! {

/// The field that currently owns keyboard focus.
#[derive(Clone, Copy, PartialEq, Eq, Structural, Debug)]
pub enum AppFocus {
    MethodSelector,
    UrlInput,
    HeadersInput,
    BodyInput,
    Response,
}

impl AppFocus {
    /// The next field in the fixed cyclic order.
    pub open spec fn advance_spec(self) -> AppFocus {
        match self {
            AppFocus::MethodSelector => AppFocus::UrlInput,
            AppFocus::UrlInput => AppFocus::HeadersInput,
            AppFocus::HeadersInput => AppFocus::BodyInput,
            AppFocus::BodyInput => AppFocus::Response,
            AppFocus::Response => AppFocus::MethodSelector,
        }
    }

    /// The previous field in the fixed cyclic order.
    pub open spec fn retreat_spec(self) -> AppFocus {
        match self {
            AppFocus::MethodSelector => AppFocus::Response,
            AppFocus::UrlInput => AppFocus::MethodSelector,
            AppFocus::HeadersInput => AppFocus::UrlInput,
            AppFocus::BodyInput => AppFocus::HeadersInput,
            AppFocus::Response => AppFocus::BodyInput,
        }
    }

    /// Move focus to the next field, wrapping from the response field
    /// back to the method selector.
    pub fn advance(self) -> (r: AppFocus)
        ensures
            r == self.advance_spec(),
    {
        match self {
            AppFocus::MethodSelector => AppFocus::UrlInput,
            AppFocus::UrlInput => AppFocus::HeadersInput,
            AppFocus::HeadersInput => AppFocus::BodyInput,
            AppFocus::BodyInput => AppFocus::Response,
            AppFocus::Response => AppFocus::MethodSelector,
        }
    }

    /// Move focus to the previous field, wrapping from the method
    /// selector back to the response field.
    pub fn retreat(self) -> (r: AppFocus)
        ensures
            r == self.retreat_spec(),
    {
        match self {
            AppFocus::MethodSelector => AppFocus::Response,
            AppFocus::UrlInput => AppFocus::MethodSelector,
            AppFocus::HeadersInput => AppFocus::UrlInput,
            AppFocus::BodyInput => AppFocus::HeadersInput,
            AppFocus::Response => AppFocus::BodyInput,
        }
    }
}

/// Law: five consecutive advances return focus to where it started, and
/// so do five consecutive retreats; advance and retreat are mutual
/// inverses. This holds from every field, the method selector included.
pub proof fn lemma_focus_cycle(f: AppFocus)
    ensures
        f.advance_spec().advance_spec().advance_spec().advance_spec().advance_spec() == f,
        f.retreat_spec().retreat_spec().retreat_spec().retreat_spec().retreat_spec() == f,
        f.advance_spec().retreat_spec() == f,
        f.retreat_spec().advance_spec() == f,
{
}

} // verus!
