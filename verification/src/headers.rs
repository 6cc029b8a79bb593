//! Reading the headers of a request.
use crate::deps::{ascii_text, header_get, header_text, header_values, is_header_name};
use axum::http::{HeaderMap, HeaderValue};
use vstd::prelude::*;

verus! {

/// The text of the first header of a name: nothing if there is no such header,
/// or if its value is more than visible ASCII.
pub open spec fn text_under(headers: HeaderMap<HeaderValue>, name: Seq<char>) -> Option<Seq<char>> {
    if header_values(headers).contains_key(name) {
        ascii_text(header_values(headers)[name][0])
    } else {
        None
    }
}

/// The text of the first header of a name.
pub fn header<'a>(headers: &'a HeaderMap<HeaderValue>, name: &str) -> (text: Option<&'a str>)
    requires
        is_header_name(name@),
    ensures
        text.deep_view() == text_under(*headers, name@),
{
    match header_get(headers, name) {
        Some(value) => header_text(value),
        None => None,
    }
}

} // verus!
