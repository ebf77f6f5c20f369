//! Addresses of requests, put together by the `url` crate.

use vstd::prelude::*;
use vstd::utf8::encode_utf8;

verus! {

/// The most bytes that one part of an address may have. The `url` crate
/// counts positions in 32 bits; with parts of this size, and no more than
/// `MAX_PARAMS` of them, an address stays far below that.
pub const MAX_PART_BYTES: usize = 0x0100_0000;

/// The most query parameters that an address may get.
pub const MAX_PARAMS: usize = 16;

/// `url::ParseError`, why a text is no URL.
#[verifier::external_type_specification]
#[verifier::external_body]
pub struct ExParseError(url::ParseError);

/// The address that `url` makes of `base` with the query parameters
/// `params` added in order, if it can read `base` as an absolute URL.
pub uninterp spec fn url_with_params_text(base: Seq<char>, params: Seq<(Seq<char>, Seq<char>)>) -> Option<Seq<char>>;

/// The address that `url` makes of `base` with `segment` added to its path
/// as one segment, if it can read `base` as an absolute URL with a path
/// that can be added to.
pub uninterp spec fn url_with_segment_text(base: Seq<char>, segment: Seq<char>) -> Option<Seq<char>>;

/// Query parameters as mathematical values.
pub open spec fn params_view(params: Seq<(String, String)>) -> Seq<(Seq<char>, Seq<char>)> {
    params.map_values(|p: (String, String)| (p.0@, p.1@))
}

/// Whether a text is short enough to be part of an address.
pub open spec fn part_fits(part: Seq<char>) -> bool {
    encode_utf8(part).len() <= MAX_PART_BYTES
}

/// Whether a base and its parameters are few and short enough.
pub open spec fn params_fit(base: Seq<char>, params: Seq<(Seq<char>, Seq<char>)>) -> bool {
    &&& part_fits(base)
    &&& params.len() <= MAX_PARAMS
    &&& forall|i: int| 0 <= i < params.len() ==> part_fits((#[trigger] params[i]).0) && part_fits(params[i].1)
}

/// The address of `base` with `params` as its query: none where a part is
/// too long, there are too many parameters, or `base` is no absolute URL.
pub open spec fn address_with_params(base: Seq<char>, params: Seq<(Seq<char>, Seq<char>)>) -> Option<Seq<char>> {
    if params_fit(base, params) {
        url_with_params_text(base, params)
    } else {
        None
    }
}

/// The address of `base` with `segment` at the end of its path: none where
/// a part is too long, or `base` is no absolute URL that has such a path.
pub open spec fn address_with_segment(base: Seq<char>, segment: Seq<char>) -> Option<Seq<char>> {
    if part_fits(base) && part_fits(segment) {
        url_with_segment_text(base, segment)
    } else {
        None
    }
}

/// `Url::parse_with_params`, and the text of the URL it gives: `base` is
/// read as an absolute URL and each pair of `params` is added to its query,
/// percent-encoded, in order. The size limit keeps the URL below the 4 GB
/// beyond which the crate gives up.
#[verifier::external_body]
fn parse_with_params(base: &str, params: &Vec<(String, String)>) -> (r: Result<String, url::ParseError>)
    requires
        params_fit(base@, params_view(params@)),
    ensures
        match r {
            Ok(text) => url_with_params_text(base@, params_view(params@)) == Some(text@),
            Err(_) => url_with_params_text(base@, params_view(params@)) is None,
        },
{
    match url::Url::parse_with_params(base, params) {
        Ok(url) => Ok(String::from(url)),
        Err(e) => Err(e),
    }
}

/// `Url::parse`, then `PathSegmentsMut::push` on its `path_segments_mut`,
/// and the text of the URL that results: `segment` is percent-encoded and
/// added as the last segment of the path (the crate passes over a segment
/// that is `.` or `..`). A URL without such a path is refused like one that
/// cannot be read.
#[verifier::external_body]
fn parse_with_segment(base: &str, segment: &str) -> (r: Result<String, url::ParseError>)
    requires
        part_fits(base@),
        part_fits(segment@),
    ensures
        match r {
            Ok(text) => url_with_segment_text(base@, segment@) == Some(text@),
            Err(_) => url_with_segment_text(base@, segment@) is None,
        },
{
    let mut url = url::Url::parse(base)?;
    match url.path_segments_mut() {
        Ok(mut path) => { path.push(segment); },
        Err(()) => { return Err(url::ParseError::RelativeUrlWithCannotBeABaseBase); },
    }
    Ok(String::from(url))
}

/// Whether every parameter is short enough.
fn params_are_short(params: &Vec<(String, String)>) -> (r: bool)
    ensures
        r == forall|i: int| 0 <= i < params@.len() ==> part_fits((#[trigger] params_view(params@)[i]).0) && part_fits(params_view(params@)[i].1),
{
    let mut i: usize = 0;
    while i < params.len()
        invariant
            i <= params.len(),
            forall|k: int| 0 <= k < i ==> part_fits((#[trigger] params_view(params@)[k]).0) && part_fits(params_view(params@)[k].1),
        decreases params.len() - i,
    {
        if params[i].0.as_str().as_bytes().len() > MAX_PART_BYTES || params[i].1.as_str().as_bytes().len() > MAX_PART_BYTES {
            assert(!(part_fits(params_view(params@)[i as int].0) && part_fits(params_view(params@)[i as int].1)));
            return false;
        }
        i += 1;
    }
    true
}

/// The address of `base` with `params` as its query.
pub fn with_params(base: &str, params: &Vec<(String, String)>) -> (r: Option<String>)
    ensures
        match r {
            Some(text) => address_with_params(base@, params_view(params@)) == Some(text@),
            None => address_with_params(base@, params_view(params@)) is None,
        },
{
    if base.as_bytes().len() > MAX_PART_BYTES || params.len() > MAX_PARAMS || !params_are_short(params) {
        return None;
    }
    match parse_with_params(base, params) {
        Ok(text) => Some(text),
        Err(_) => None,
    }
}

/// The address of `base` with `segment` at the end of its path.
pub fn with_segment(base: &str, segment: &str) -> (r: Option<String>)
    ensures
        match r {
            Some(text) => address_with_segment(base@, segment@) == Some(text@),
            None => address_with_segment(base@, segment@) is None,
        },
{
    if base.as_bytes().len() > MAX_PART_BYTES || segment.as_bytes().len() > MAX_PART_BYTES {
        return None;
    }
    match parse_with_segment(base, segment) {
        Ok(text) => Some(text),
        Err(_) => None,
    }
}

} // verus!
