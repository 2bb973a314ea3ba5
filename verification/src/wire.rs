//! The parts of an HTTP message that `hyper` holds.
//!
//! Methods, addresses and headers are known here by plain values: a method by
//! its text ([`method_text`]), an address by its parts ([`uri_parts`]), headers
//! by their values under each name ([`header_values`]). The functions of this
//! module that touch them are the only ones whose contracts are taken from
//! `hyper` (which re-exports `http`) and not proved.

use vstd::prelude::*;

use crate::text;

verus! {

/// The text before the first character among `stops`; all of it, where there
/// is none.
pub open spec fn before_first(text: Seq<char>, stops: Set<char>) -> Seq<char>
    decreases text.len(),
{
    if text.len() == 0 || stops.contains(text[0]) {
        Seq::empty()
    } else {
        seq![text[0]] + before_first(text.skip(1), stops)
    }
}

/// The characters that end the authority of an address.
pub open spec fn authority_stops() -> Set<char> {
    set!['/', '?', '#']
}

/// Whether `text` is a path, a query or both, without a fragment.
pub open spec fn is_target(text: Seq<char>) -> bool {
    &&& text.len() > 0
    &&& text[0] == '/' || text[0] == '?'
    &&& free_of(text, set!['#'])
}

/// Whether `text` has no character among `stops`.
pub open spec fn free_of(text: Seq<char>, stops: Set<char>) -> bool {
    forall|i: int| 0 <= i < text.len() ==> !stops.contains(#[trigger] text[i])
}

/// The parts of an address: what its accessors of these names give, as text.
#[verifier::ext_equal]
pub struct UriParts {
    pub scheme: Option<Seq<char>>,
    pub authority: Option<Seq<char>>,
    pub path: Seq<char>,
    pub path_and_query: Option<Seq<char>>,
}

/// `text`, or a slash where there is none.
pub open spec fn or_slash(text: Seq<char>) -> Seq<char> {
    if text.len() == 0 {
        seq!['/']
    } else {
        text
    }
}

/// The parts of the address that is `http://` and then `rest`.
pub open spec fn http_parts(rest: Seq<char>) -> UriParts {
    let authority = before_first(rest, authority_stops());
    let target = before_first(rest.skip(authority.len() as int), set!['#']);
    UriParts {
        scheme: Some("http"@),
        authority: Some(authority),
        path: or_slash(before_first(target, set!['?'])),
        path_and_query: Some(or_slash(target)),
    }
}

/// A visible ASCII character, a space or a tab.
pub open spec fn visible(b: u8) -> bool {
    32 <= b < 127 || b == 9
}

/// Whether a text can stand in a header: no ASCII control characters but the
/// tab.
pub open spec fn header_text(text: Seq<char>) -> bool {
    forall|i: int|
        0 <= i < text.len() ==> (#[trigger] text[i] >= ' ' && text[i] != '\u{7f}' || text[i]
            == '\t')
}

/// A header name of lower-case letters and hyphens.
pub open spec fn plain_header_name(name: Seq<char>) -> bool {
    &&& 0 < name.len() <= 64
    &&& forall|i: int| 0 <= i < name.len() ==> ('a' <= #[trigger] name[i] <= 'z' || name[i] == '-')
}

/// As many header names as any header map has room for, however they collide.
pub const HEADER_NAMES: usize = 6553;

/// The text before a stop is found where it has no stop itself.
proof fn lemma_before_first_splits(head: Seq<char>, tail: Seq<char>, stops: Set<char>)
    requires
        free_of(head, stops),
        tail.len() == 0 || stops.contains(tail[0]),
    ensures
        before_first(head + tail, stops) == head,
    decreases head.len(),
{
    let whole = head + tail;
    if head.len() == 0 {
        assert(whole =~= tail);
        assert(before_first(tail, stops) =~= head);
    } else {
        assert(whole[0] == head[0]);
        assert(whole.skip(1) =~= head.skip(1) + tail);
        assert forall|i: int| 0 <= i < head.skip(1).len() implies !stops.contains(
            #[trigger] head.skip(1)[i],
        ) by {
            assert(head.skip(1)[i] == head[i + 1]);
        }
        lemma_before_first_splits(head.skip(1), tail, stops);
        assert(seq![head[0]] + head.skip(1) =~= head);
    }
}

/// The parts of an address on a host and port: all of them come back.
pub proof fn lemma_http_parts(host: Seq<char>, port: nat, target: Seq<char>)
    requires
        free_of(host, authority_stops()),
        is_target(target),
    ensures
        http_parts(host + seq![':'] + text::decimal(port) + target) == (UriParts {
            scheme: Some("http"@),
            authority: Some(host + seq![':'] + text::decimal(port)),
            path: or_slash(before_first(target, set!['?'])),
            path_and_query: Some(target),
        }),
{
    let stops = authority_stops();
    text::lemma_decimal_digits(port);
    let named = host + seq![':'] + text::decimal(port);
    assert forall|i: int| 0 <= i < named.len() implies !stops.contains(#[trigger] named[i]) by {
        if i < host.len() {
            assert(named[i] == host[i]);
        } else if i == host.len() {
            assert(named[i] == ':');
        } else {
            assert(named[i] == text::decimal(port)[i - host.len() - 1]);
        }
    }
    lemma_before_first_splits(named, target, stops);
    assert((named + target).skip(named.len() as int) =~= target);
    lemma_before_first_splits(target, Seq::empty(), set!['#']);
    assert(target + Seq::<char>::empty() =~= target);
}

/// The path of the asterisk is the asterisk.
pub proof fn lemma_asterisk_path()
    ensures
        or_slash(before_first(seq!['*'], set!['?'])) == seq!['*'],
{
    lemma_before_first_splits(seq!['*'], Seq::empty(), set!['?']);
    assert(seq!['*'] + Seq::<char>::empty() =~= seq!['*']);
}

/// `hyper::Method`: the method of a request.
#[verifier::external_type_specification]
#[verifier::external_body]
pub struct ExMethod(hyper::Method);

/// `hyper::Uri`: the address of a request.
#[verifier::external_type_specification]
#[verifier::external_body]
pub struct ExUri(hyper::Uri);

/// `hyper::http::uri::InvalidUri`: why a text is no address.
#[verifier::external_type_specification]
#[verifier::external_body]
pub struct ExInvalidUri(hyper::http::uri::InvalidUri);

/// `hyper::http::uri::PathAndQuery`: what an address asks its host for.
#[verifier::external_type_specification]
#[verifier::external_body]
pub struct ExPathAndQuery(hyper::http::uri::PathAndQuery);

/// `hyper::http::uri::Authority`: the host of an address, with its port.
#[verifier::external_type_specification]
#[verifier::external_body]
pub struct ExAuthority(hyper::http::uri::Authority);

/// `hyper::HeaderMap`: the headers of a message.
#[verifier::external_type_specification]
#[verifier::external_body]
#[verifier::reject_recursive_types(T)]
pub struct ExHeaderMap<T>(hyper::HeaderMap<T>);

/// `hyper::header::HeaderValue`: one value of a header.
#[verifier::external_type_specification]
#[verifier::external_body]
pub struct ExHeaderValue(hyper::header::HeaderValue);

/// `hyper::header::ToStrError`: a header value is no visible text.
#[verifier::external_type_specification]
#[verifier::external_body]
pub struct ExToStrError(hyper::header::ToStrError);

/// `hyper::header::MaxSizeReached`: a header map has no room left.
#[verifier::external_type_specification]
#[verifier::external_body]
pub struct ExMaxSizeReached(hyper::header::MaxSizeReached);

/// `hyper::header::InvalidHeaderValue`: a text is no header value.
#[verifier::external_type_specification]
#[verifier::external_body]
pub struct ExInvalidHeaderValue(hyper::header::InvalidHeaderValue);

/// The text of a method.
pub uninterp spec fn method_text(method: hyper::Method) -> Seq<char>;

/// The parts of an address.
pub uninterp spec fn uri_parts(uri: hyper::Uri) -> UriParts;

/// The message of a `hyper::http::uri::InvalidUri`.
pub uninterp spec fn uri_error_text(error: hyper::http::uri::InvalidUri) -> Seq<char>;

/// What `hyper::Uri` reads from `text`: the parts of an address, or the message
/// of the error.
pub uninterp spec fn parsed_uri(text: Seq<char>) -> Result<UriParts, Seq<char>>;

/// The text of a path and query.
pub uninterp spec fn target_text(target: hyper::http::uri::PathAndQuery) -> Seq<char>;

/// Why `hyper::http::uri::Authority` does not accept `text`: the message of the
/// error, where there is one.
pub uninterp spec fn authority_refusal(text: Seq<char>) -> Option<Seq<char>>;

/// The bytes of a header value.
pub uninterp spec fn header_bytes(value: hyper::header::HeaderValue) -> Seq<u8>;

/// The values that a header map holds under each name, in order. Names are in
/// lower case.
pub uninterp spec fn header_values(headers: hyper::HeaderMap) -> Map<Seq<char>, Seq<Seq<u8>>>;

/// `hyper::Method::as_str`: the text of the method.
pub assume_specification[ hyper::Method::as_str ](method: &hyper::Method) -> (word: &str)
    ensures
        word@ == method_text(*method),
;

/// `hyper::Uri::path`: the path of the address.
///
/// Claims beyond the name that an address with a path that is not empty has a
/// path and query, and that the path is what stands there before the query.
pub assume_specification[ hyper::Uri::path ](uri: &hyper::Uri) -> (path: &str)
    ensures
        path@ == uri_parts(*uri).path,
        path@.len() > 0 ==> uri_parts(*uri).path_and_query is Some,
        path@.len() > 0 ==> path@ == or_slash(
            before_first(uri_parts(*uri).path_and_query->0, set!['?']),
        ),
;

/// `hyper::Uri::path_and_query`: the path and query of the address, where it
/// has a place for them.
pub assume_specification[ hyper::Uri::path_and_query ](uri: &hyper::Uri) -> (target: Option<
    &hyper::http::uri::PathAndQuery,
>)
    ensures
        match target {
            Some(target) => uri_parts(*uri).path_and_query == Some(target_text(*target)),
            None => uri_parts(*uri).path_and_query is None,
        },
;

/// `hyper::http::uri::PathAndQuery::as_str`: the path and query as text.
///
/// Claims beyond the name that the text is the asterisk, or begins with a slash
/// or a question mark and holds no fragment.
pub assume_specification[ hyper::http::uri::PathAndQuery::as_str ](
    target: &hyper::http::uri::PathAndQuery,
) -> (shown: &str)
    ensures
        shown@ == target_text(*target),
        shown@ == seq!['*'] || is_target(shown@),
;

/// `hyper::Uri::from_str`.
///
/// Claims that the outcome is a function of the text, named [`parsed_uri`], and
/// the scheme of an accepted `http` address and where it is cut.
#[verifier::external_body]
pub(crate) fn parse_uri(text: &str) -> (outcome: Result<hyper::Uri, hyper::http::uri::InvalidUri>)
    ensures
        match outcome {
            Ok(uri) => parsed_uri(text@) == Ok::<UriParts, Seq<char>>(uri_parts(uri)),
            Err(error) => parsed_uri(text@) == Err::<UriParts, Seq<char>>(uri_error_text(error)),
        },
        outcome matches Ok(uri) ==> text@.len() >= 7 && text@.take(7) == "http://"@ ==> uri_parts(uri)
            == http_parts(text@.skip(7)),
{
    text.parse()
}

/// `hyper::http::uri::Authority::from_str`.
///
/// Claims that the text is accepted where [`authority_refusal`] names no
/// message, and refused with that message elsewhere.
#[verifier::external_body]
pub(crate) fn parse_authority(text: &str) -> (outcome: Result<
    hyper::http::uri::Authority,
    hyper::http::uri::InvalidUri,
>)
    ensures
        match outcome {
            Ok(_) => authority_refusal(text@) is None,
            Err(error) => authority_refusal(text@) == Some(uri_error_text(error)),
        },
{
    text.parse()
}

/// `hyper::http::uri::InvalidUri::to_string`: the message of the error.
#[verifier::external_body]
pub(crate) fn uri_error_message(error: &hyper::http::uri::InvalidUri) -> (message: String)
    ensures
        message@ == uri_error_text(*error),
{
    error.to_string()
}

/// `hyper::header::ToStrError::to_string`: the one message of that error.
#[verifier::external_body]
pub(crate) fn to_str_error_message(error: &hyper::header::ToStrError) -> (message: String)
    ensures
        message@ == "failed to convert header to a str"@,
{
    error.to_string()
}

/// `hyper::header::HeaderValue::to_str`: the value as text, where every byte of
/// it is visible.
pub assume_specification[ hyper::header::HeaderValue::to_str ](
    value: &hyper::header::HeaderValue,
) -> (outcome: Result<&str, hyper::header::ToStrError>)
    ensures
        outcome is Ok <==> (forall|i: int|
            0 <= i < header_bytes(*value).len() ==> visible(#[trigger] header_bytes(*value)[i])),
        outcome matches Ok(shown) ==> shown@ == text::ascii_chars(header_bytes(*value)),
;

/// `hyper::header::HeaderValue::from` a number: its decimal notation.
#[verifier::external_body]
pub(crate) fn number_value(n: usize) -> (value: hyper::header::HeaderValue)
    ensures
        header_bytes(value) == text::ascii_bytes(text::decimal(n as nat)),
{
    hyper::header::HeaderValue::from(n)
}

/// `hyper::header::HeaderValue::try_from` a text: its bytes, where it can stand
/// in a header.
#[verifier::external_body]
pub(crate) fn header_value(text: String) -> (outcome: Result<
    hyper::header::HeaderValue,
    hyper::header::InvalidHeaderValue,
>)
    ensures
        outcome is Ok <==> header_text(text@),
        outcome matches Ok(value) ==> header_bytes(value) == vstd::utf8::encode_utf8(text@),
{
    hyper::header::HeaderValue::try_from(text)
}

/// `hyper::HeaderMap::get`: the first value under a name.
#[verifier::external_body]
pub(crate) fn header<'a>(headers: &'a hyper::HeaderMap, name: &str) -> (found: Option<
    &'a hyper::header::HeaderValue,
>)
    requires
        plain_header_name(name@),
    ensures
        found is Some <==> header_values(*headers).contains_key(name@),
        found matches Some(value) ==> header_values(*headers)[name@].len() > 0 && header_bytes(
            *value,
        ) == header_values(*headers)[name@][0],
{
    headers.get(name)
}

/// `hyper::HeaderMap::keys_len`: how many names the map holds values under.
#[verifier::external_body]
pub(crate) fn name_count(headers: &hyper::HeaderMap) -> (count: usize)
    ensures
        count == header_values(*headers).len(),
{
    headers.keys_len()
}

/// `hyper::HeaderMap::remove`: takes every value under a name out of the map,
/// and gives back the first.
#[verifier::external_body]
pub(crate) fn remove_header(headers: &mut hyper::HeaderMap, name: &str) -> (removed: Option<
    hyper::header::HeaderValue,
>)
    requires
        plain_header_name(name@),
    ensures
        header_values(*final(headers)) == header_values(*old(headers)).remove(name@),
        removed is Some <==> header_values(*old(headers)).contains_key(name@),
        removed matches Some(value) ==> header_values(*old(headers))[name@].len() > 0
            && header_bytes(value) == header_values(*old(headers))[name@][0],
{
    headers.remove(name)
}

/// `hyper::HeaderMap::try_insert`: sets the one value under a name, or leaves
/// the map as it is where it has no room for another name. There is room in
/// any map of at most [`HEADER_NAMES`] names.
#[verifier::external_body]
pub(crate) fn insert_header(
    headers: &mut hyper::HeaderMap,
    name: &'static str,
    value: hyper::header::HeaderValue,
) -> (outcome: Result<Option<hyper::header::HeaderValue>, hyper::header::MaxSizeReached>)
    requires
        plain_header_name(name@),
    ensures
        header_values(*final(headers)) == match outcome {
            Ok(_) => header_values(*old(headers)).insert(name@, seq![header_bytes(value)]),
            Err(_) => header_values(*old(headers)),
        },
        header_values(*old(headers)).len() <= HEADER_NAMES ==> outcome is Ok,
{
    headers.try_insert(name, value)
}

} // verus!
