use crate::numeral::{number_within, parse_u16, parse_u64};
use vstd::prelude::*;

verus! {

/// The header map of the `http` crate, carried through unread.
#[verifier::external_type_specification]
#[verifier::external_body]
#[verifier::reject_recursive_types(T)]
pub struct ExHeaderMap<T>(http::HeaderMap<T>);

/// The header value of the `http` crate, carried through unread.
#[verifier::external_type_specification]
#[verifier::external_body]
pub struct ExHeaderValue(http::HeaderValue);

/// The name of the header that carries the endpoint's limit.
pub const HEADER_LIMIT: &'static str = "x-ratelimit-limit";

/// The name of the header that carries what is left of the limit.
pub const HEADER_REMAINING: &'static str = "x-ratelimit-remaining";

/// The name of the header that carries the second at which the limit resets.
pub const HEADER_RESET: &'static str = "x-ratelimit-reset";

/// What a lookup in `headers` gives, by the name that is looked up: the first
/// value under that name, for the names that have one that is visible ASCII.
pub uninterp spec fn header_texts(headers: http::HeaderMap<http::HeaderValue>) -> Map<
    Seq<char>,
    Seq<char>,
>;

/// `http::HeaderMap::get` followed by `http::HeaderValue::to_str`: the first
/// value under `name` as text. There is none where no header has that name,
/// and none where the value holds a byte that is not visible ASCII.
#[verifier::external_body]
pub(crate) fn header_text(headers: &http::HeaderMap<http::HeaderValue>, name: &str) -> (r: Option<
    String,
>)
    ensures
        r is Some <==> header_texts(*headers).contains_key(name@),
        r matches Some(text) ==> text@ == header_texts(*headers)[name@],
{
    match headers.get(name) {
        Some(value) => match value.to_str() {
            Ok(text) => Some(text.to_owned()),
            Err(_) => None,
        },
        None => None,
    }
}

/// The rate limit of an endpoint, as the response headers report it.
#[non_exhaustive]
#[derive(Debug, Copy, Clone)]
pub struct RateLimit {
    /// The endpoint's limit.
    pub limit: u16,
    /// How many requests may still be made in the remaining time.
    pub remaining: u16,
    /// UNIX timestamp, in seconds, of when the rate limit resets.
    pub reset: u64,
}

/// The number of 16 bits that an optional text stands for.
pub open spec fn field_u16(text: Option<Seq<char>>) -> Option<u16> {
    match text {
        Some(t) => match number_within(t, u16::MAX as nat) {
            Some(v) => Some(v as u16),
            None => None,
        },
        None => None,
    }
}

/// The number of 64 bits that an optional text stands for.
pub open spec fn field_u64(text: Option<Seq<char>>) -> Option<u64> {
    match text {
        Some(t) => match number_within(t, u64::MAX as nat) {
            Some(v) => Some(v as u64),
            None => None,
        },
        None => None,
    }
}

/// The text under `name`, if there is one.
pub open spec fn lookup(texts: Map<Seq<char>, Seq<char>>, name: Seq<char>) -> Option<Seq<char>> {
    if texts.contains_key(name) {
        Some(texts[name])
    } else {
        None
    }
}

/// The view of an optional text.
pub open spec fn text_of(text: Option<&str>) -> Option<Seq<char>> {
    match text {
        Some(t) => Some(t@),
        None => None,
    }
}

impl RateLimit {
    /// The rate limit that the three header values stand for. All three are
    /// required, each as a decimal numeral that fits its field: there is no
    /// rate limit where one is missing or is something else.
    pub open spec fn of_texts(
        limit: Option<Seq<char>>,
        remaining: Option<Seq<char>>,
        reset: Option<Seq<char>>,
    ) -> Option<RateLimit> {
        if field_u16(limit) is Some && field_u16(remaining) is Some && field_u64(reset) is Some {
            Some(
                RateLimit {
                    limit: field_u16(limit)->Some_0,
                    remaining: field_u16(remaining)->Some_0,
                    reset: field_u64(reset)->Some_0,
                },
            )
        } else {
            None
        }
    }

    /// The rate limit that a header map stands for.
    pub open spec fn of_headers(texts: Map<Seq<char>, Seq<char>>) -> Option<RateLimit> {
        Self::of_texts(
            lookup(texts, HEADER_LIMIT@),
            lookup(texts, HEADER_REMAINING@),
            lookup(texts, HEADER_RESET@),
        )
    }

    /// Reads the rate limit from the values of the three headers.
    pub fn from_values(limit: Option<&str>, remaining: Option<&str>, reset: Option<&str>) -> (r:
        Option<Self>)
        ensures
            r == Self::of_texts(text_of(limit), text_of(remaining), text_of(reset)),
    {
        let remaining = match remaining {
            Some(text) => match parse_u16(text) {
                Some(v) => v,
                None => {
                    return None;
                },
            },
            None => {
                return None;
            },
        };
        let reset = match reset {
            Some(text) => match parse_u64(text) {
                Some(v) => v,
                None => {
                    return None;
                },
            },
            None => {
                return None;
            },
        };
        let limit = match limit {
            Some(text) => match parse_u16(text) {
                Some(v) => v,
                None => {
                    return None;
                },
            },
            None => {
                return None;
            },
        };
        Some(Self { limit, remaining, reset })
    }

    /// Reads the rate limit from the headers of a response.
    pub fn new(headers: &http::HeaderMap<http::HeaderValue>) -> (r: Option<Self>)
        ensures
            r == Self::of_headers(header_texts(*headers)),
    {
        let remaining = header_text(headers, HEADER_REMAINING);
        let reset = header_text(headers, HEADER_RESET);
        let limit = header_text(headers, HEADER_LIMIT);
        Self::from_values(as_text(&limit), as_text(&remaining), as_text(&reset))
    }
}

/// The text that an optional string holds.
fn as_text(text: &Option<String>) -> (r: Option<&str>)
    ensures
        text_of(r) == (match text {
            Some(t) => Some(t@),
            None => None,
        }),
{
    match text {
        Some(t) => Some(t.as_str()),
        None => None,
    }
}

} // verus!
