//! The parts of an HTTP request that the gateway rewrites.
use axum::headers::authorization::Basic;
use axum::headers::{Authorization, Header};
use axum::http::header::{HeaderMap, HeaderValue};
use axum::http::Uri;
use vstd::prelude::*;
use vstd::utf8::encode_utf8;

verus! {

/// `axum::http::HeaderMap`, the headers of a request.
#[verifier::external_type_specification]
#[verifier::external_body]
#[verifier::reject_recursive_types(T)]
pub struct ExHeaderMap<T>(HeaderMap<T>);

/// `axum::http::HeaderValue`, the bytes of one header.
#[verifier::external_type_specification]
#[verifier::external_body]
pub struct ExHeaderValue(HeaderValue);

/// What a header map holds: for each header name, in lower case, that has a
/// value, the bytes of its values, oldest first.
pub uninterp spec fn header_entries(headers: HeaderMap<HeaderValue>) -> Map<
    Seq<char>,
    Seq<Seq<u8>>,
>;

/// The bytes that a header value holds.
pub uninterp spec fn header_bytes(value: HeaderValue) -> Seq<u8>;

/// The ASCII text that stands for `bytes` in base64, with the standard alphabet
/// and padding.
pub uninterp spec fn base64_bytes(bytes: Seq<u8>) -> Seq<u8>;

/// The value of an `Authorization` header that gives `username` and `password`
/// by the `Basic` scheme: the name of the scheme, and the two with a colon
/// between them, in base64.
pub open spec fn basic_credentials(username: Seq<char>, password: Seq<char>) -> Seq<u8> {
    encode_utf8("Basic "@) + base64_bytes(encode_utf8(username + seq![':'] + password))
}

/// The number of distinct header names up to which a header map always takes
/// one more: a header map gives up earliest when a table of `1 << 15` slots is
/// one fifth full.
pub const HEADER_NAMES_ALWAYS_TAKEN: usize = 6553;

/// `name` is spelled as the names in [`header_entries`] are: a few lower case
/// letters and hyphens.
pub open spec fn header_name(name: Seq<char>) -> bool {
    0 < name.len() <= 64 && forall|i: int|
        0 <= i < name.len() ==> ('a' <= #[trigger] name[i] && name[i] <= 'z') || name[i] == '-'
}

/// The number of bytes of the longest URI.
pub const URI_MAX_LENGTH: usize = 65534;

/// `c` stands for itself in the path of a URI.
pub open spec fn uri_path_char(c: char) -> bool {
    ||| ('$' <= c && c <= ';')
    ||| ('@' <= c && c <= '_')
    ||| ('a' <= c && c <= 'z')
    ||| c == '!'
    ||| c == '='
    ||| c == '|'
    ||| c == '~'
    ||| c == '"'
    ||| c == '{'
    ||| c == '}'
}

/// `c` stands for itself in the query of a URI.
pub open spec fn uri_query_char(c: char) -> bool {
    ||| ('$' <= c && c <= ';')
    ||| ('?' <= c && c <= '~')
    ||| c == '!'
    ||| c == '='
}

/// `text` is a query, up to its first `#`.
pub open spec fn uri_query(text: Seq<char>) -> bool {
    forall|i: int|
        0 <= i < before_fragment(text).len() ==> uri_query_char(
            #[trigger] before_fragment(text)[i],
        )
}

/// `text` is a path and, behind the first `?`, a query, up to its first `#`.
pub open spec fn uri_path_and_query(text: Seq<char>) -> bool
    decreases text.len(),
{
    if text.len() == 0 || text[0] == '#' {
        true
    } else if text[0] == '?' {
        uri_query(text.drop_first())
    } else {
        uri_path_char(text[0]) && uri_path_and_query(text.drop_first())
    }
}

/// `text`, which begins with `/`, is accepted as a URI.
pub open spec fn uri_accepts(text: Seq<char>) -> bool {
    encode_utf8(text).len() <= URI_MAX_LENGTH && uri_path_and_query(text)
}

/// `text` up to its first `#`, all of it where there is none.
pub open spec fn before_fragment(text: Seq<char>) -> Seq<char>
    decreases text.len(),
{
    if text.len() == 0 || text[0] == '#' {
        Seq::empty()
    } else {
        seq![text[0]] + before_fragment(text.drop_first())
    }
}

/// Calls `Authorization::<Basic>::name`, the name of the header that carries
/// credentials.
#[verifier::external_body]
pub(crate) fn authorization_name() -> (name: &'static str)
    ensures
        name@ == "authorization"@,
{
    Authorization::<Basic>::name().as_str()
}

/// Calls `Authorization::basic` and encodes the header it makes into its one
/// value: the word `Basic`, a space, and the base64 of the user name, a colon and
/// the password. What base64 makes of given bytes is named and not stated.
#[verifier::external_body]
pub(crate) fn basic_authorization(username: &str, password: &str) -> (value: HeaderValue)
    ensures
        header_bytes(value) == encode_utf8("Basic "@) + base64_bytes(
            encode_utf8(username@ + seq![':'] + password@),
        ),
{
    let mut values = Vec::with_capacity(1);
    Authorization::basic(username, password).encode(&mut values);
    values.pop().unwrap()
}

/// Calls `HeaderMap::remove`: every value of the header `name` is gone, the
/// other headers, finitely many, keep theirs. The order in which the names are
/// walked may change, and is not stated.
#[verifier::external_body]
pub(crate) fn remove_header(headers: &mut HeaderMap<HeaderValue>, name: &'static str)
    requires
        header_name(name@),
    ensures
        header_entries(*final(headers)) == header_entries(*old(headers)).remove(name@),
        header_entries(*final(headers)).dom().finite(),
{
    headers.remove(name);
}

/// Calls `HeaderMap::try_append`: `value` comes behind the values that the
/// header `name` has. A header map can be full, which depends on how its table
/// has filled up and is then left as it was; one with at most
/// [`HEADER_NAMES_ALWAYS_TAKEN`] names is not.
#[verifier::external_body]
pub(crate) fn append_header(
    headers: &mut HeaderMap<HeaderValue>,
    name: &'static str,
    value: HeaderValue,
) -> (appended: bool)
    requires
        header_name(name@),
    ensures
        appended ==> header_entries(*final(headers)) == header_entries(*old(headers)).insert(
            name@,
            (if header_entries(*old(headers)).contains_key(name@) {
                header_entries(*old(headers))[name@]
            } else {
                Seq::empty()
            }).push(header_bytes(value)),
        ),
        !appended ==> header_entries(*final(headers)) == header_entries(*old(headers)),
        !appended ==> header_entries(*old(headers)).dom().len() > HEADER_NAMES_ALWAYS_TAKEN,
{
    headers.try_append(name, value).is_ok()
}

/// Calls `str::parse` for a [`Uri`] and writes the URI out again. A text that
/// begins with `/` is accepted if it is not too long and each character of its
/// path and of its query may stand there; what is written out is the text
/// without its fragment.
#[verifier::external_body]
pub(crate) fn parse_uri(text: &str) -> (uri: Option<String>)
    requires
        text@.len() > 0,
        text@[0] == '/',
    ensures
        uri is Some == uri_accepts(text@),
        uri matches Some(uri) ==> uri@ == before_fragment(text@),
{
    text.parse::<Uri>().ok().map(|uri| uri.to_string())
}

} // verus!
