//! URIs, as the `http` crate reads and writes them.
use tungstenite::client::IntoClientRequest;
use tungstenite::http::uri::InvalidUri;
use tungstenite::http::{HeaderMap, Uri};
use vstd::prelude::*;

use crate::headers::{header_entries, text_value, HeaderModel};
use crate::string_map::Deep;

verus! {

/// `http::uri::InvalidUri`, what is wrong with a text that is no URI.
#[verifier::external_type_specification]
#[verifier::external_body]
pub struct ExInvalidUri(tungstenite::http::uri::InvalidUri);

/// `http::Error`, what keeps the parts of a URI from making one.
#[verifier::external_type_specification]
#[verifier::external_body]
pub struct ExHttpError(tungstenite::http::Error);

/// `tungstenite::Error`, what keeps a request from being made.
#[verifier::external_type_specification]
#[verifier::external_body]
pub struct ExTungsteniteError(tungstenite::Error);

/// The parts of a URI, each as far as the URI has it.
#[derive(Debug, Clone)]
pub struct UriParts {
    pub scheme: Option<String>,
    pub authority: Option<String>,
    pub path_and_query: Option<String>,
}

impl UriParts {
    pub open spec fn model(&self) -> (Option<Seq<char>>, Option<Seq<char>>, Option<Seq<char>>) {
        (self.scheme.model(), self.authority.model(), self.path_and_query.model())
    }
}

/// The scheme, the authority and the path with its query that `http::Uri` reads
/// in a text, or nothing if the text is no URI.
pub uninterp spec fn parsed_uri(text: Seq<char>) -> Option<
    (Option<Seq<char>>, Option<Seq<char>>, Option<Seq<char>>),
>;

/// The URI that `http::Uri` makes of a scheme, an authority and a path with its
/// query, or nothing if they make none.
pub uninterp spec fn assembled_uri(
    scheme: Seq<char>,
    authority: Seq<char>,
    path_and_query: Seq<char>,
) -> Option<Seq<char>>;

/// Whether a scheme is made of lower-case letters.
pub open spec fn is_plain_scheme(scheme: Seq<char>) -> bool {
    &&& scheme.len() > 0
    &&& forall|i: int| 0 <= i < scheme.len() ==> 'a' <= #[trigger] scheme[i] <= 'z'
}

/// Whether an authority is there and holds nothing that ends one.
pub open spec fn is_plain_authority(authority: Seq<char>) -> bool {
    &&& authority.len() > 0
    &&& !authority.contains('/')
    &&& !authority.contains('?')
    &&& !authority.contains('#')
}

/// Whether a path is absolute and has no fragment behind it.
pub open spec fn is_plain_path(path_and_query: Seq<char>) -> bool {
    &&& path_and_query.len() > 0
    &&& path_and_query[0] == '/'
    &&& !path_and_query.contains('#')
}

/// Whether `text` is made of these parts, in the plain form of a URI.
pub open spec fn is_plain_uri(
    text: Seq<char>,
    scheme: Seq<char>,
    authority: Seq<char>,
    path_and_query: Seq<char>,
) -> bool {
    &&& is_plain_scheme(scheme)
    &&& is_plain_authority(authority)
    &&& is_plain_path(path_and_query)
    &&& text == scheme + "://"@ + authority + path_and_query
}

/// Whether a character may stand anywhere in a path with its query: letters,
/// digits and `-._~/?=&`.
pub open spec fn is_simple_char(c: char) -> bool {
    ||| 'a' <= c <= 'z'
    ||| 'A' <= c <= 'Z'
    ||| '0' <= c <= '9'
    ||| c == '-' || c == '.' || c == '_' || c == '~'
    ||| c == '/' || c == '?' || c == '=' || c == '&'
}

/// Whether a text holds only characters that may stand anywhere in a path with
/// its query.
pub open spec fn is_simple_text(text: Seq<char>) -> bool {
    forall|i: int| 0 <= i < text.len() ==> is_simple_char(#[trigger] text[i])
}

/// Whether an authority is a host name or an IPv4 address, with or without a
/// port: letters, digits and `-.`, and at most one colon.
pub open spec fn is_simple_host(authority: Seq<char>) -> bool {
    &&& authority.len() > 0
    &&& forall|i: int|
        0 <= i < authority.len() ==> {
            let c = #[trigger] authority[i];
            'a' <= c <= 'z' || 'A' <= c <= 'Z' || '0' <= c <= '9' || c == '-' || c == '.' || c
                == ':'
        }
    &&& forall|i: int, j: int|
        0 <= i < j < authority.len() ==> !(#[trigger] authority[i] == ':' && #[trigger] authority[j]
            == ':')
}

/// Whether `text` is made of these parts, each of them simple, and is not too
/// long for a URI.
pub open spec fn is_simple_uri(
    text: Seq<char>,
    scheme: Seq<char>,
    authority: Seq<char>,
    path_and_query: Seq<char>,
) -> bool {
    &&& is_plain_uri(text, scheme, authority, path_and_query)
    &&& scheme.len() <= 64
    &&& is_simple_host(authority)
    &&& is_simple_text(path_and_query)
    &&& text.len() <= 65534
}

/// `<http::Uri as FromStr>::from_str`, with the parts taken out by
/// `http::Uri::scheme_str`, `authority` and `path_and_query`.
///
/// Of a text that is a URI:
/// - where it starts with a slash, it has a path and nothing else;
/// - where it has a slash further on, it has all three parts, and its path is
///   plain;
/// - where it has the plain form, its parts are the parts of that form.
///
/// A text that is made of simple parts is a URI.
#[verifier::external_body]
pub(crate) fn parse_uri(text: &str) -> (parsed: Result<UriParts, InvalidUri>)
    ensures
        parsed is Ok <==> parsed_uri(text@) is Some,
        parsed is Ok ==> Some(parsed->Ok_0.model()) == parsed_uri(text@),
        parsed is Ok && text@.len() > 1 && text@[0] == '/' ==> parsed->Ok_0.scheme is None
            && parsed->Ok_0.authority is None && parsed->Ok_0.path_and_query is Some,
        parsed is Ok && text@.len() > 1 && text@[0] != '/' && text@.contains('/') ==> {
            &&& parsed->Ok_0.scheme is Some
            &&& parsed->Ok_0.authority is Some
            &&& parsed->Ok_0.path_and_query is Some
            &&& is_plain_path(parsed->Ok_0.path_and_query->Some_0@)
        },
        forall|scheme: Seq<char>, authority: Seq<char>, path_and_query: Seq<char>|
            parsed is Ok && #[trigger] is_plain_uri(text@, scheme, authority, path_and_query)
                ==> parsed->Ok_0.model() == (Some(scheme), Some(authority), Some(path_and_query)),
        forall|scheme: Seq<char>, authority: Seq<char>, path_and_query: Seq<char>| #[trigger]
            is_simple_uri(text@, scheme, authority, path_and_query) ==> parsed is Ok,
{
    let uri: Uri = text.parse()?;
    Ok(
        UriParts {
            scheme: uri.scheme_str().map(|scheme| scheme.to_string()),
            authority: uri.authority().map(|authority| authority.to_string()),
            path_and_query: uri.path_and_query().map(|path| path.to_string()),
        },
    )
}

/// `http::uri::Builder::build` on a scheme, an authority and a path with its
/// query. Where they make a URI and the path is plain and not too long, the URI
/// is the three of them in a row. Simple parts make a URI.
#[verifier::external_body]
pub(crate) fn assemble_uri(scheme: &str, authority: &str, path_and_query: &str) -> (uri: Result<
    String,
    tungstenite::http::Error,
>)
    ensures
        uri is Ok <==> assembled_uri(scheme@, authority@, path_and_query@) is Some,
        uri is Ok ==> Some(uri->Ok_0@) == assembled_uri(scheme@, authority@, path_and_query@),
        uri is Ok && is_plain_path(path_and_query@) && path_and_query@.len() <= 65535
            ==> uri->Ok_0@ == scheme@ + "://"@ + authority@ + path_and_query@,
        is_plain_scheme(scheme@) && scheme@.len() <= 64 && is_simple_host(authority@)
            && is_simple_text(path_and_query@) ==> uri is Ok,
{
    let uri = Uri::builder()
        .scheme(scheme)
        .authority(authority)
        .path_and_query(path_and_query)
        .build()?;
    Ok(uri.to_string())
}

/// What stands behind the first `@` of an authority, or all of it where there
/// is none.
pub open spec fn host_part(authority: Seq<char>) -> Seq<char> {
    if authority.contains('@') {
        authority.skip(authority.index_of_first('@')->Some_0 + 1)
    } else {
        authority
    }
}

/// Whether these are the headers that ask a host for a websocket.
pub open spec fn is_handshake(entries: HeaderModel, host: Seq<char>) -> bool {
    &&& entries.dom() == set![
        "host"@,
        "connection"@,
        "upgrade"@,
        "sec-websocket-version"@,
        "sec-websocket-key"@,
    ]
    &&& entries["host"@] == seq![text_value(host)]
    &&& entries["connection"@] == seq![text_value("Upgrade"@)]
    &&& entries["upgrade"@] == seq![text_value("websocket"@)]
    &&& entries["sec-websocket-version"@] == seq![text_value("13"@)]
    &&& entries["sec-websocket-key"@].len() == 1
    &&& entries["sec-websocket-key"@][0].0.len() == 24
    &&& !entries["sec-websocket-key"@][0].1
}

/// `<http::Uri as tungstenite::client::IntoClientRequest>::into_client_request`
/// on the URI of these parts: the headers of a request that asks the host for a
/// websocket. It fails if and only if there is no host. The key is random.
#[verifier::external_body]
pub(crate) fn handshake_headers(scheme: &str, authority: &str, path_and_query: &str) -> (headers: Result<
    HeaderMap,
    tungstenite::Error,
>)
    requires
        assembled_uri(scheme@, authority@, path_and_query@) is Some,
    ensures
        headers is Ok <==> host_part(authority@).len() > 0,
        headers is Ok ==> is_handshake(header_entries(headers->Ok_0), host_part(authority@)),
{
    let uri = Uri::builder()
        .scheme(scheme)
        .authority(authority)
        .path_and_query(path_and_query)
        .build()
        .unwrap();
    Ok(uri.into_client_request()?.into_parts().0.headers)
}

} // verus!
