use vstd::prelude::*;

verus! {

/// A fatal condition of one fetch.
///
/// `TransportError` is reserved for the caller that drives the HTTP
/// transport: the library itself never constructs it.  `UnsuccessfulResponse`
/// carries the HTTP status that was outside the 2xx success range.
/// `ProtocolViolation` means the server broke the protocol contract, for
/// example by signalling up-to-date without the tokens that entering the
/// tailing phase requires.
#[derive(Debug)]
pub enum Error {
    TransportError(String),
    UnsuccessfulResponse(u16),
    ProtocolViolation,
}

/// One HTTP response, reduced to the plain values the protocol reads:
/// the status code, the header list, and the body text.
///
/// Header names are expected as the transport hands them out, in lower case;
/// the lookup functions match the protocol's (lower-case) header names
/// exactly, which implements the protocol's case-insensitive header lookup.
#[derive(Debug)]
pub struct Response {
    pub status: u16,
    pub headers: Vec<(String, String)>,
    pub body: String,
}

/// The value of the first header with the given name, if any.
pub open spec fn spec_header_value(hs: Seq<(String, String)>, name: Seq<char>) -> Option<
    Seq<char>,
>
    decreases hs.len(),
{
    if hs.len() == 0 {
        None
    } else if hs[0].0@ == name {
        Some(hs[0].1@)
    } else {
        spec_header_value(hs.drop_first(), name)
    }
}

/// Whether the status lies in the 2xx success range.
pub open spec fn spec_is_success(status: u16) -> bool {
    200 <= status < 300
}

pub fn is_success(status: u16) -> (r: bool)
    ensures
        r == spec_is_success(status),
{
    200 <= status && status < 300
}

impl Response {
    /// The position token of this response: header `electric-offset`.
    pub open spec fn offset_spec(self) -> Option<Seq<char>> {
        spec_header_value(self.headers@, "electric-offset"@)
    }

    /// The subscription handle of this response: header `electric-handle`.
    pub open spec fn handle_spec(self) -> Option<Seq<char>> {
        spec_header_value(self.headers@, "electric-handle"@)
    }

    /// The tailing cursor of this response: header `electric-cursor`.
    pub open spec fn cursor_spec(self) -> Option<Seq<char>> {
        spec_header_value(self.headers@, "electric-cursor"@)
    }

    /// The up-to-date signal: presence of header `electric-up-to-date`,
    /// whatever its value.
    pub open spec fn up_to_date_spec(self) -> bool {
        spec_header_value(self.headers@, "electric-up-to-date"@) is Some
    }
}

/// First-match lookup of a header by exact name.
pub fn lookup_header(headers: &Vec<(String, String)>, name: &String) -> (r: Option<String>)
    ensures
        match r {
            Some(v) => spec_header_value(headers@, name@) == Some(v@),
            None => spec_header_value(headers@, name@) is None,
        },
{
    let mut i: usize = 0;
    proof {
        assert(headers@.skip(0) =~= headers@);
    }
    while i < headers.len()
        invariant
            i <= headers.len(),
            spec_header_value(headers@, name@) == spec_header_value(
                headers@.skip(i as int),
                name@,
            ),
        decreases headers.len() - i,
    {
        proof {
            assert(headers@.skip(i as int)[0] == headers@[i as int]);
        }
        if headers[i].0 == *name {
            return Some(headers[i].1.clone());
        }
        proof {
            assert(headers@.skip(i as int).drop_first() =~= headers@.skip(i + 1));
        }
        i = i + 1;
    }
    None
}

} // verus!
