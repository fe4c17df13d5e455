//! The fixed headers that every request to the provider carries.
use crate::cli::Parameters;
use crate::error::{Error, ErrorView};
use reqwest::header::{HeaderMap, HeaderName, HeaderValue, InvalidHeaderName, InvalidHeaderValue};
use vstd::prelude::*;
use vstd::string::*;
use vstd::utf8::*;

verus! {

/// Marks `reqwest::header::HeaderValue` as a type the verifier carries through
/// without looking inside.
#[verifier::external_type_specification]
#[verifier::external_body]
pub struct ExHeaderValue(reqwest::header::HeaderValue);

/// Marks `reqwest::header::HeaderName` as a type the verifier carries through
/// without looking inside.
#[verifier::external_type_specification]
#[verifier::external_body]
pub struct ExHeaderName(reqwest::header::HeaderName);

/// Marks `reqwest::header::HeaderMap` as a type the verifier carries through
/// without looking inside.
#[verifier::external_type_specification]
#[verifier::external_body]
#[verifier::reject_recursive_types(T)]
pub struct ExHeaderMap<T>(reqwest::header::HeaderMap<T>);

/// The name of the header that carries the account's email address.
pub const CF_MAIL_TOKEN_NAME: &'static str = "X-Auth-Email";

/// What precedes the token in the authorization header.
pub const BEARER_PREFIX: &'static str = "Bearer ";

/// A header map never has to grow past its limit while it holds fewer names
/// than this, so an insertion into such a map cannot fail.
pub const HEADER_NAMES_LIMIT: usize = 1024;

/// What a header value holds: its bytes, and whether it is sensitive.
pub type ValueEntry = (Seq<u8>, bool);

/// What a header map holds: for each name, the values set under it, in order.
pub type HeaderEntries = Map<Seq<char>, Seq<ValueEntry>>;

/// The bytes of a header value, as `HeaderValue::as_bytes` gives them.
pub uninterp spec fn header_value_bytes(value: HeaderValue) -> Seq<u8>;

/// Whether a header value is marked sensitive, as `HeaderValue::is_sensitive` tells.
pub uninterp spec fn header_value_is_sensitive(value: HeaderValue) -> bool;

/// The text of a header name, as `HeaderName::as_str` gives it.
pub uninterp spec fn header_name_text(name: HeaderName) -> Seq<char>;

/// The text of the name that `HeaderName::from_str` makes of `text`, or nothing
/// where it refuses `text`.
pub uninterp spec fn header_name_parsed(text: Seq<char>) -> Option<Seq<char>>;

/// The entries of a header map: the text of each name it holds, with the
/// values under that name.
pub uninterp spec fn header_map_entries(map: HeaderMap<HeaderValue>) -> Map<
    Seq<char>,
    Seq<(Seq<u8>, bool)>,
>;

/// The entries of a map that holds nothing.
pub open spec fn no_headers() -> HeaderEntries {
    Map::empty()
}

/// Whether a header value may hold the byte `b`: a tab, or anything from the
/// space upwards but the delete character.
pub open spec fn header_value_byte(b: u8) -> bool {
    b == 9 || (b >= 32 && b != 127)
}

/// Whether `text` can be a header value: each byte of its encoding can be held.
pub open spec fn header_value_text(text: Seq<char>) -> bool {
    forall|i: int|
        0 <= i < encode_utf8(text).len() ==> header_value_byte(#[trigger] encode_utf8(text)[i])
}

/// Calls `HeaderValue::from_str`. Not proved: that it succeeds exactly when
/// every byte of the text passes [`header_value_byte`], and that the value
/// then holds those bytes and is not sensitive.
#[verifier::external_body]
fn header_value_from_str(text: &str) -> (r: Result<HeaderValue, InvalidHeaderValue>)
    ensures
        r.is_ok() == header_value_text(text@),
        r.is_ok() ==> header_value_bytes(r.unwrap()) == encode_utf8(text@),
        r.is_ok() ==> !header_value_is_sensitive(r.unwrap()),
{
    HeaderValue::from_str(text)
}

/// Calls `HeaderValue::set_sensitive`. Not proved: that it sets the mark and
/// leaves the bytes as they were.
#[verifier::external_body]
fn header_value_set_sensitive(value: &mut HeaderValue, sensitive: bool)
    ensures
        header_value_bytes(*final(value)) == header_value_bytes(*old(value)),
        header_value_is_sensitive(*final(value)) == sensitive,
{
    value.set_sensitive(sensitive);
}

/// Calls `HeaderName::from_str`. Not proved: that its outcome depends on the
/// text alone, which [`header_name_parsed`] names.
#[verifier::external_body]
fn header_name_from_str(text: &str) -> (r: Result<HeaderName, InvalidHeaderName>)
    ensures
        r.is_ok() == header_name_parsed(text@).is_some(),
        r.is_ok() ==> header_name_text(r.unwrap()) == header_name_parsed(text@).unwrap(),
{
    <HeaderName as std::str::FromStr>::from_str(text)
}

/// Gives `reqwest::header::AUTHORIZATION`. Not proved: that its text is
/// `authorization`.
#[verifier::external_body]
fn authorization_header_name() -> (name: HeaderName)
    ensures
        header_name_text(name) == "authorization"@,
{
    reqwest::header::AUTHORIZATION
}

/// Calls `HeaderMap::new`. Not proved: that the new map holds nothing.
#[verifier::external_body]
fn header_map_new() -> (headers: HeaderMap<HeaderValue>)
    ensures
        header_map_entries(headers) == no_headers(),
{
    HeaderMap::new()
}

/// Calls `HeaderMap::insert`. Not proved: that afterwards the name holds this
/// value alone, and every other name what it held. The outside function fails
/// only where the map holds 32768 names or would have to grow past 32768
/// slots. It grows by doubling, and only once the names fill three quarters
/// of the slots or, after many collisions, a fifth of them; with fewer than
/// [`HEADER_NAMES_LIMIT`] names it therefore stays far below that size.
#[verifier::external_body]
fn header_map_insert(map: &mut HeaderMap<HeaderValue>, name: HeaderName, value: HeaderValue)
    requires
        header_map_entries(*old(map)).dom().finite(),
        header_map_entries(*old(map)).dom().len() < HEADER_NAMES_LIMIT,
    ensures
        header_map_entries(*final(map)) == header_map_entries(*old(map)).insert(
            header_name_text(name),
            seq![(header_value_bytes(value), header_value_is_sensitive(value))],
        ),
{
    map.insert(name, value);
}

/// The value of the authorization header for `token`.
pub open spec fn bearer(token: Seq<char>) -> Seq<char> {
    BEARER_PREFIX@ + token
}

/// The entry of a sensitive header whose value is `text`.
pub open spec fn sensitive_entry(text: Seq<char>) -> Seq<ValueEntry> {
    seq![(encode_utf8(text), true)]
}

/// The headers of an authenticated request: the bearer token under
/// `authorization`, then the email under `email_name`.
pub open spec fn credential_headers(
    token: Seq<char>,
    email_name: Seq<char>,
    email: Seq<char>,
) -> HeaderEntries {
    no_headers().insert("authorization"@, sensitive_entry(bearer(token))).insert(
        email_name,
        sensitive_entry(email),
    )
}

/// What building the headers from this token and this email gives: the token
/// is checked first, then the name of the email header, then the email.
pub open spec fn default_headers(token: Seq<char>, email: Seq<char>) -> Result<
    HeaderEntries,
    ErrorView,
> {
    if !header_value_text(bearer(token)) {
        Err(ErrorView::InvalidHeaderValue)
    } else if header_name_parsed(CF_MAIL_TOKEN_NAME@).is_none() {
        Err(ErrorView::InvalidHeaderName)
    } else if !header_value_text(email) {
        Err(ErrorView::InvalidHeaderValue)
    } else {
        Ok(credential_headers(token, header_name_parsed(CF_MAIL_TOKEN_NAME@).unwrap(), email))
    }
}

/// A result with its headers as entries and its error as a view.
pub open spec fn headers_outcome(r: Result<HeaderMap<HeaderValue>, Error>) -> Result<
    HeaderEntries,
    ErrorView,
> {
    match r {
        Ok(headers) => Ok(header_map_entries(headers)),
        Err(e) => Err(e@),
    }
}

/// Builds the headers that authenticate every request to the provider: the
/// bearer token and the account's email, both sensitive. A credential that no
/// header value can carry fails the construction.
pub fn get_default_headers(params: &Parameters) -> (r: Result<HeaderMap<HeaderValue>, Error>)
    ensures
        headers_outcome(r) == default_headers(params.token@, params.email@),
{
    let mut headers = header_map_new();

    let bearer_value = String::from_str(BEARER_PREFIX).concat(params.token.as_str());
    let mut auth_value = match header_value_from_str(bearer_value.as_str()) {
        Ok(value) => value,
        Err(e) => {
            return Err(Error::InvalidHeaderValue(e));
        },
    };
    header_value_set_sensitive(&mut auth_value, true);
    header_map_insert(&mut headers, authorization_header_name(), auth_value);

    let email_name = match header_name_from_str(CF_MAIL_TOKEN_NAME) {
        Ok(name) => name,
        Err(e) => {
            return Err(Error::InvalidHeaderName(e));
        },
    };
    let mut email_value = match header_value_from_str(params.email.as_str()) {
        Ok(value) => value,
        Err(e) => {
            return Err(Error::InvalidHeaderValue(e));
        },
    };
    header_value_set_sensitive(&mut email_value, true);
    header_map_insert(&mut headers, email_name, email_value);

    Ok(headers)
}

} // verus!
