//! The URLs of the API's endpoints: the base URL and, behind it, a path of
//! names and identifiers.

use crate::text::decimal;
use crate::text::decimal_digits;
use crate::BASE_URL;
use vstd::prelude::*;
use vstd::string::StringExecFns;

verus! {

/// One part of an endpoint's path.
#[derive(Clone, Copy, Debug, PartialEq, Eq)]
pub enum Segment<'a> {
    /// A name, written as it is.
    Name(&'a str),
    /// An identifier, written in decimal notation.
    Id(u64),
}

impl<'a> Segment<'a> {
    /// The segment as it stands in a path.
    pub open spec fn text(self) -> Seq<char> {
        match self {
            Segment::Name(name) => name@,
            Segment::Id(id) => decimal_digits(id as nat),
        }
    }
}

/// The path made of `segments`: each with a `/` before it.
pub open spec fn path(segments: Seq<Segment<'_>>) -> Seq<char>
    decreases segments.len(),
{
    if segments.len() == 0 {
        Seq::empty()
    } else {
        path(segments.drop_last()) + seq!['/'] + segments.last().text()
    }
}

/// Returns the URL of the endpoint that `segments` lead to: the base URL, then
/// each segment with a `/` before it.
pub fn endpoint(segments: &Vec<Segment<'_>>) -> (url: String)
    ensures
        url@ == BASE_URL@ + path(segments@),
{
    let mut url = String::from_str(BASE_URL);
    let mut i: usize = 0;
    assert(segments@.take(0).len() == 0);
    assert(url@ =~= BASE_URL@ + path(segments@.take(0)));
    while i < segments.len()
        invariant
            i <= segments.len(),
            url@ == BASE_URL@ + path(segments@.take(i as int)),
        decreases segments.len() - i,
    {
        let ghost before = url@;
        proof {
            assert(segments@.take(i + 1).drop_last() == segments@.take(i as int));
            assert(segments@.take(i + 1).last() == segments@[i as int]);
            reveal_strlit("/");
            assert("/"@ =~= seq!['/']);
        }
        url.append("/");
        match segments[i] {
            Segment::Name(name) => url.append(name),
            Segment::Id(id) => {
                let digits = decimal(id);
                url.append(digits.as_str());
            },
        }
        assert(url@ =~= BASE_URL@ + (path(segments@.take(i as int)) + seq!['/'] + segments@[i as int].text()));
        i = i + 1;
    }
    assert(segments@.take(segments.len() as int) == segments@);
    url
}

} // verus!
