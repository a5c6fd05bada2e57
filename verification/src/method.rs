//! The HTTP method of the request form: a tagged enum over the fixed
//! ordered method list, with its position, display name, and the cyclic
//! next/previous motion used by the method selector.

use vstd::prelude::*;
use vstd::string::*;

verus! {

/// Number of selectable HTTP methods.
pub const METHOD_COUNT: usize = 7;

/// The HTTP methods, in the fixed order the selector cycles through.
#[derive(Clone, Copy, PartialEq, Eq, Structural, Debug)]
pub enum HttpMethod {
    Get,
    Post,
    Put,
    Delete,
    Patch,
    Head,
    Options,
}

impl HttpMethod {
    /// Position of the method in the fixed order.
    pub open spec fn index_spec(self) -> int {
        match self {
            HttpMethod::Get => 0,
            HttpMethod::Post => 1,
            HttpMethod::Put => 2,
            HttpMethod::Delete => 3,
            HttpMethod::Patch => 4,
            HttpMethod::Head => 5,
            HttpMethod::Options => 6,
        }
    }

    /// The method at a position of the fixed order.
    pub open spec fn from_index_spec(i: int) -> HttpMethod {
        if i == 0 {
            HttpMethod::Get
        } else if i == 1 {
            HttpMethod::Post
        } else if i == 2 {
            HttpMethod::Put
        } else if i == 3 {
            HttpMethod::Delete
        } else if i == 4 {
            HttpMethod::Patch
        } else if i == 5 {
            HttpMethod::Head
        } else {
            HttpMethod::Options
        }
    }

    /// The display name of the method.
    pub open spec fn name_spec(self) -> Seq<char> {
        match self {
            HttpMethod::Get => "GET"@,
            HttpMethod::Post => "POST"@,
            HttpMethod::Put => "PUT"@,
            HttpMethod::Delete => "DELETE"@,
            HttpMethod::Patch => "PATCH"@,
            HttpMethod::Head => "HEAD"@,
            HttpMethod::Options => "OPTIONS"@,
        }
    }

    /// The next method, wrapping from the last back to the first.
    pub open spec fn next_spec(self) -> HttpMethod {
        Self::from_index_spec((self.index_spec() + 1) % (METHOD_COUNT as int))
    }

    /// The previous method, wrapping from the first back to the last.
    pub open spec fn prev_spec(self) -> HttpMethod {
        Self::from_index_spec((self.index_spec() - 1) % (METHOD_COUNT as int))
    }

    pub fn index(self) -> (r: usize)
        ensures
            r == self.index_spec(),
    {
        match self {
            HttpMethod::Get => 0,
            HttpMethod::Post => 1,
            HttpMethod::Put => 2,
            HttpMethod::Delete => 3,
            HttpMethod::Patch => 4,
            HttpMethod::Head => 5,
            HttpMethod::Options => 6,
        }
    }

    pub fn from_index(i: usize) -> (r: HttpMethod)
        requires
            i < METHOD_COUNT,
        ensures
            r == Self::from_index_spec(i as int),
    {
        if i == 0 {
            HttpMethod::Get
        } else if i == 1 {
            HttpMethod::Post
        } else if i == 2 {
            HttpMethod::Put
        } else if i == 3 {
            HttpMethod::Delete
        } else if i == 4 {
            HttpMethod::Patch
        } else if i == 5 {
            HttpMethod::Head
        } else {
            HttpMethod::Options
        }
    }

    pub fn name(self) -> (r: String)
        ensures
            r@ == self.name_spec(),
    {
        match self {
            HttpMethod::Get => String::from_str("GET"),
            HttpMethod::Post => String::from_str("POST"),
            HttpMethod::Put => String::from_str("PUT"),
            HttpMethod::Delete => String::from_str("DELETE"),
            HttpMethod::Patch => String::from_str("PATCH"),
            HttpMethod::Head => String::from_str("HEAD"),
            HttpMethod::Options => String::from_str("OPTIONS"),
        }
    }

    pub fn next(self) -> (r: HttpMethod)
        ensures
            r == self.next_spec(),
    {
        match self {
            HttpMethod::Get => HttpMethod::Post,
            HttpMethod::Post => HttpMethod::Put,
            HttpMethod::Put => HttpMethod::Delete,
            HttpMethod::Delete => HttpMethod::Patch,
            HttpMethod::Patch => HttpMethod::Head,
            HttpMethod::Head => HttpMethod::Options,
            HttpMethod::Options => HttpMethod::Get,
        }
    }

    pub fn prev(self) -> (r: HttpMethod)
        ensures
            r == self.prev_spec(),
    {
        match self {
            HttpMethod::Get => HttpMethod::Options,
            HttpMethod::Post => HttpMethod::Get,
            HttpMethod::Put => HttpMethod::Post,
            HttpMethod::Delete => HttpMethod::Put,
            HttpMethod::Patch => HttpMethod::Delete,
            HttpMethod::Head => HttpMethod::Patch,
            HttpMethod::Options => HttpMethod::Head,
        }
    }
}

/// Law: the position always resolves back to the method it came from,
/// every position below the count names a distinct method, and the
/// selector motions are mutual inverses.
pub proof fn lemma_method_index(m: HttpMethod, i: int)
    ensures
        HttpMethod::from_index_spec(m.index_spec()) == m,
        0 <= i < METHOD_COUNT ==> HttpMethod::from_index_spec(i).index_spec() == i,
        m.next_spec().prev_spec() == m,
        m.prev_spec().next_spec() == m,
        0 <= m.index_spec() < METHOD_COUNT,
{
}

} // verus!
