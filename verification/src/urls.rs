//! Trusted wrappers around the `url` crate. URLs live in this library
//! as their normalized serializations; each wrapper re-parses, works,
//! and hands the serialization back.

use vstd::prelude::*;

verus! {

/// What `url::Url::parse` makes of a string: the serialization of the
/// parsed absolute URL, or nothing when it does not parse.
pub uninterp spec fn url_normalized(s: Seq<char>) -> Option<Seq<char>>;

/// What joining `input` against the URL parsed from `base` yields.
pub uninterp spec fn url_joined(base: Seq<char>, input: Seq<char>) -> Option<Seq<char>>;

/// What appending one path segment to the URL parsed from `base` yields.
pub uninterp spec fn url_with_segment(base: Seq<char>, segment: Seq<char>) -> Option<Seq<char>>;

/// Relies on url::Url::parse (with Url::as_str to read the result back):
/// whether a string parses as an absolute URL, and the serialization it
/// parses to, depend on the string alone.
#[verifier::external_body]
pub fn parse_url(s: &str) -> (r: Option<String>)
    ensures
        match r {
            Some(u) => url_normalized(s@) == Some(u@),
            None => url_normalized(s@) is None,
        },
{
    match url::Url::parse(s) {
        Ok(u) => Some(String::from(u.as_str())),
        Err(_) => None,
    }
}

/// Relies on url::Url::parse on the base followed by Url::join: the
/// resolution of a possibly-relative reference against an absolute base,
/// a function of the two strings alone.
#[verifier::external_body]
pub fn join_url(base: &str, input: &str) -> (r: Option<String>)
    ensures
        match r {
            Some(u) => url_joined(base@, input@) == Some(u@),
            None => url_joined(base@, input@) is None,
        },
{
    match url::Url::parse(base) {
        Ok(b) => match b.join(input) {
            Ok(u) => Some(String::from(u.as_str())),
            Err(_) => None,
        },
        Err(_) => None,
    }
}

/// Relies on url::Url::parse on the base followed by
/// Url::path_segments_mut and PathSegmentsMut::push: one more path
/// segment on the end of the URL; nothing when the base does not parse
/// or cannot be a base.
#[verifier::external_body]
pub fn url_push_segment(base: &str, segment: &str) -> (r: Option<String>)
    ensures
        match r {
            Some(u) => url_with_segment(base@, segment@) == Some(u@),
            None => url_with_segment(base@, segment@) is None,
        },
{
    match url::Url::parse(base) {
        Ok(mut b) => {
            match b.path_segments_mut() {
                Ok(mut segments) => {
                    segments.push(segment);
                },
                Err(()) => return None,
            }
            Some(String::from(b.as_str()))
        },
        Err(_) => None,
    }
}

} // verus!
