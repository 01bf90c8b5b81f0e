//! The request that opens the socket.
use tungstenite::http::HeaderMap;
use vstd::prelude::*;

use crate::headers::{
    can_be_header_value, fits, header_char, header_entries, is_header_value, may_fit, text_value,
    try_merge_headers, try_put_header, HeaderModel, SURE_HEADER_NAMES,
};
use crate::string_map::{Deep, StringMap};
use crate::uri::{
    assemble_uri, assembled_uri, handshake_headers, host_part, is_handshake, is_plain_authority,
    is_plain_path, is_plain_scheme, is_plain_uri, is_simple_char, is_simple_host, is_simple_text,
    is_simple_uri, parse_uri, parsed_uri, UriParts,
};

verus! {

/// The name of the header that tells the server which client it talks to.
pub open spec fn client_info_name() -> Seq<char> {
    "x-client-info"@
}

/// What that header says.
pub open spec fn client_info() -> Seq<(Seq<u8>, bool)> {
    seq![text_value("realtime-rs/0.1.0"@)]
}

/// Sets the header that tells the server which client it talks to, unless the map
/// takes no more names. Then it stays as it is.
pub(crate) fn try_put_client_info(headers: &mut HeaderMap) -> (taken: bool)
    ensures
        taken ==> header_entries(*final(headers)) == header_entries(*old(headers)).insert(
            client_info_name(),
            client_info(),
        ),
        !taken ==> header_entries(*final(headers)) == header_entries(*old(headers)),
        fits(header_entries(*old(headers)).insert(client_info_name(), client_info())) ==> taken,
        taken ==> may_fit(header_entries(*final(headers))),
{
    proof {
        reveal_strlit("x-client-info");
        reveal_strlit("realtime-rs/0.1.0");
        assert("x-client-info"@ =~= seq![
            'x',
            '-',
            'c',
            'l',
            'i',
            'e',
            'n',
            't',
            '-',
            'i',
            'n',
            'f',
            'o',
        ]);
        assert("realtime-rs/0.1.0"@ =~= seq![
            'r',
            'e',
            'a',
            'l',
            't',
            'i',
            'm',
            'e',
            '-',
            'r',
            's',
            '/',
            '0',
            '.',
            '1',
            '.',
            '0',
        ]);
    }
    try_put_header(headers, "x-client-info", "realtime-rs/0.1.0")
}

/// The address of the socket behind an endpoint, before any further params.
pub open spec fn endpoint_uri(endpoint: Seq<char>, access_token: Seq<char>) -> Seq<char> {
    endpoint + "/realtime/v1/websocket?apikey="@ + access_token + "&vsn=1.0.0"@
}

/// Further params, as they stand behind a query.
pub open spec fn params_text(keys: Seq<Seq<char>>, params: Map<Seq<char>, Seq<char>>) -> Seq<char>
    decreases keys.len(),
{
    if keys.len() == 0 {
        Seq::empty()
    } else {
        params_text(keys.drop_last(), params) + "&"@ + keys.last() + "="@ + params[keys.last()]
    }
}

/// Further params, if there are any, as they stand behind a query.
pub open spec fn extra_params(params: Option<StringMap<String>>) -> Seq<char> {
    match params {
        Some(map) => params_text(map.keys(), map.model()),
        None => Seq::empty(),
    }
}

/// The scheme of the socket behind an endpoint of the given scheme.
pub open spec fn socket_scheme(scheme: Option<Seq<char>>) -> Seq<char> {
    if scheme == Some("http"@) {
        "ws"@
    } else {
        "wss"@
    }
}

/// What authorizes a request.
pub open spec fn bearer(access_token: Seq<char>) -> Seq<char> {
    "Bearer "@ + access_token
}

/// The request that opens the socket.
#[derive(Debug)]
pub struct ClientRequest {
    pub scheme: String,
    pub authority: String,
    pub path_and_query: String,
    /// The address that the three parts make.
    pub uri: String,
    pub headers: HeaderMap,
}

impl ClientRequest {
    /// Whether the request is the one for an endpoint with an address: to that
    /// address, with the token and the headers given.
    pub open spec fn opens(
        &self,
        endpoint: Seq<char>,
        access_token: Seq<char>,
        params: Seq<char>,
        given: HeaderModel,
    ) -> bool {
        &&& self.scheme@ == address_scheme(endpoint, access_token)
        &&& self.authority@ == address_authority(endpoint, access_token)
        &&& self.path_and_query@ == address_path(endpoint, access_token, params)
        &&& Some(self.uri@) == address(endpoint, access_token, params)
        &&& is_request_headers(
            header_entries(self.headers),
            host_part(self.authority@),
            access_token,
            given,
        )
    }

    /// Whether the request is to the socket of a host, below a base path.
    pub open spec fn is_to_socket(
        &self,
        scheme: Seq<char>,
        host: Seq<char>,
        base: Seq<char>,
        access_token: Seq<char>,
        params: Seq<char>,
    ) -> bool {
        &&& self.scheme@ == socket_scheme(Some(scheme))
        &&& self.authority@ == host
        &&& self.path_and_query@ == base + socket_path(access_token) + params
        &&& !params.contains('#') && self.path_and_query@.len() <= 65535 ==> self.uri@
            == socket_scheme(Some(scheme)) + "://"@ + host + base + socket_path(access_token)
            + params
    }
}

/// Why no request can be made: the endpoint makes no address.
#[derive(Debug, Clone, Copy, PartialEq, Eq, Structural)]
pub struct BadEndpoint {}

/// Whether there are the three parts of an address behind an endpoint.
pub open spec fn has_address(endpoint: Seq<char>, access_token: Seq<char>) -> bool {
    parsed_uri(endpoint_uri(endpoint, access_token)) matches Some((_, authority, path_and_query))
        && authority is Some && path_and_query is Some
}

/// The authority in the address behind an endpoint that has one.
pub open spec fn address_authority(endpoint: Seq<char>, access_token: Seq<char>) -> Seq<char> {
    parsed_uri(endpoint_uri(endpoint, access_token))->Some_0.1->Some_0
}

/// The scheme of the socket behind an endpoint that has an address.
pub open spec fn address_scheme(endpoint: Seq<char>, access_token: Seq<char>) -> Seq<char> {
    socket_scheme(parsed_uri(endpoint_uri(endpoint, access_token))->Some_0.0)
}

/// The path and the query, with the further params, in the address behind an
/// endpoint that has one.
pub open spec fn address_path(
    endpoint: Seq<char>,
    access_token: Seq<char>,
    params: Seq<char>,
) -> Seq<char> {
    parsed_uri(endpoint_uri(endpoint, access_token))->Some_0.2->Some_0 + params
}

/// The address behind an endpoint that has one, where its parts make one.
pub open spec fn address(
    endpoint: Seq<char>,
    access_token: Seq<char>,
    params: Seq<char>,
) -> Option<Seq<char>> {
    assembled_uri(
        address_scheme(endpoint, access_token),
        address_authority(endpoint, access_token),
        address_path(endpoint, access_token, params),
    )
}

/// Whether an endpoint that is a URI has an address, its address with the
/// params is one, and the token can stand in a header.
pub open spec fn is_sound_target(
    endpoint: Seq<char>,
    access_token: Seq<char>,
    params: Seq<char>,
) -> bool {
    parsed_uri(endpoint_uri(endpoint, access_token)) is Some ==> {
        &&& has_address(endpoint, access_token)
        &&& address(endpoint, access_token, params) is Some
        &&& host_part(address_authority(endpoint, access_token)).len() > 0 ==> is_header_value(
            bearer(access_token),
        )
    }
}

/// Whether a request can be made: the endpoint is a URI with a host.
pub open spec fn is_good_endpoint(endpoint: Seq<char>, access_token: Seq<char>) -> bool {
    &&& parsed_uri(endpoint_uri(endpoint, access_token)) is Some
    &&& host_part(address_authority(endpoint, access_token)).len() > 0
}

/// Whether these are the headers of a request: those that ask the host for a
/// websocket, with the token and the name of the client, and in their place
/// those that the client was given.
pub open spec fn is_request_headers(
    entries: HeaderModel,
    host: Seq<char>,
    access_token: Seq<char>,
    given: HeaderModel,
) -> bool {
    exists|handshake: HeaderModel|
        #![trigger is_handshake(handshake, host)]
        is_handshake(handshake, host) && entries == with_token(
            handshake,
            access_token,
        ).union_prefer_right(given)
}

/// The headers with the token and the name of the client.
pub open spec fn with_token(
    handshake: HeaderModel,
    access_token: Seq<char>,
) -> HeaderModel {
    handshake.insert("authorization"@, seq![text_value(bearer(access_token))]).insert(
        client_info_name(),
        client_info(),
    )
}

/// Whether a header map takes the headers of a request besides those that a client
/// was given, however their names hash.
pub open spec fn leaves_room(given: HeaderModel) -> bool {
    given.dom().finite() && given.dom().len() + 7 <= SURE_HEADER_NAMES
}

fn write_params(params: &Option<StringMap<String>>) -> (text: String)
    ensures
        text@ == extra_params(*params),
{
    let mut text = String::new();
    if let Some(map) = params {
        let count: usize = map.len();
        let ghost keys = map.keys();
        proof {
            assert(text@ =~= params_text(keys.take(0), map.model()));
        }
        for i in 0..count
            invariant
                keys == map.keys(),
                count == keys.len(),
                text@ == params_text(keys.take(i as int), map.model()),
        {
            let field = map.key_at(i);
            let value = map.value_at(i);
            let ghost before = text@;
            text.append("&");
            text.append(field.as_str());
            text.append("=");
            text.append(value.as_str());
            proof {
                assert(keys.take(i + 1).drop_last() =~= keys.take(i as int));
                assert(map.model()[field@] == value@);
            }
        }
        proof {
            assert(keys.take(count as int) =~= keys);
        }
    }
    text
}

fn write_endpoint_uri(endpoint: &String, access_token: &String) -> (text: String)
    ensures
        text@ == endpoint_uri(endpoint@, access_token@),
{
    let mut text = endpoint.clone();
    text.append("/realtime/v1/websocket?apikey=");
    text.append(access_token.as_str());
    text.append("&vsn=1.0.0");
    text
}

fn write_bearer(access_token: &String) -> (text: String)
    ensures
        text@ == bearer(access_token@),
{
    let mut text = "Bearer ".to_owned();
    text.append(access_token.as_str());
    text
}

fn choose_scheme(scheme: &Option<String>) -> (chosen: &'static str)
    ensures
        chosen@ == socket_scheme(scheme.model()),
{
    match scheme {
        Some(scheme) => {
            if *scheme == "http".to_owned() {
                "ws"
            } else {
                "wss"
            }
        },
        None => "wss",
    }
}

/// The path of the socket and its query, before any further params.
pub open spec fn socket_path(access_token: Seq<char>) -> Seq<char> {
    "/realtime/v1/websocket?apikey="@ + access_token + "&vsn=1.0.0"@
}

/// Whether an endpoint is a scheme, a host and a base path, which may be
/// missing, and nothing else.
pub open spec fn is_plain_endpoint(
    endpoint: Seq<char>,
    scheme: Seq<char>,
    host: Seq<char>,
    base: Seq<char>,
) -> bool {
    &&& is_plain_scheme(scheme)
    &&& is_plain_authority(host)
    &&& base.len() == 0 || is_plain_path(base)
    &&& endpoint == scheme + "://"@ + host + base
}

/// Whether an endpoint is a scheme, a host and a base path, which may be
/// missing, each of them simple, so that there is a socket behind it.
pub open spec fn is_simple_endpoint(
    endpoint: Seq<char>,
    scheme: Seq<char>,
    host: Seq<char>,
    base: Seq<char>,
    access_token: Seq<char>,
) -> bool {
    &&& is_plain_endpoint(endpoint, scheme, host, base)
    &&& scheme.len() <= 64
    &&& is_simple_host(host)
    &&& is_simple_text(base)
    &&& is_simple_text(access_token)
    &&& endpoint_uri(endpoint, access_token).len() <= 65534
}

proof fn lemma_simple_sum(a: Seq<char>, b: Seq<char>)
    requires
        is_simple_text(a),
        is_simple_text(b),
    ensures
        is_simple_text(a + b),
{
    assert forall|i: int| 0 <= i < (a + b).len() implies is_simple_char(#[trigger] (a + b)[i]) by {
        if i < a.len() {
            assert((a + b)[i] == a[i]);
        } else {
            assert((a + b)[i] == b[i - a.len()]);
        }
    }
}

proof fn lemma_simple_has_no_fragment(text: Seq<char>)
    requires
        is_simple_text(text),
    ensures
        !text.contains('#'),
{
    if text.contains('#') {
        assert(is_simple_char(text[text.index_of('#')]));
    }
}

proof fn lemma_simple_endpoint(
    endpoint: Seq<char>,
    access_token: Seq<char>,
    scheme: Seq<char>,
    host: Seq<char>,
    base: Seq<char>,
)
    requires
        is_simple_endpoint(endpoint, scheme, host, base, access_token),
    ensures
        !access_token.contains('#'),
        is_simple_text(base + socket_path(access_token)),
        is_simple_uri(
            endpoint_uri(endpoint, access_token),
            scheme,
            host,
            base + socket_path(access_token),
        ),
        host_part(host) == host,
        is_header_value(bearer(access_token)),
{
    lemma_simple_has_no_fragment(access_token);
    lemma_plain_endpoint(endpoint, access_token, scheme, host, base);
    reveal_strlit("/realtime/v1/websocket?apikey=");
    reveal_strlit("&vsn=1.0.0");
    let start = "/realtime/v1/websocket?apikey="@;
    let end = "&vsn=1.0.0"@;
    assert(start =~= seq![
        '/', 'r', 'e', 'a', 'l', 't', 'i', 'm', 'e', '/', 'v', '1', '/', 'w', 'e', 'b', 's', 'o',
        'c', 'k', 'e', 't', '?', 'a', 'p', 'i', 'k', 'e', 'y', '=',
    ]);
    assert(end =~= seq!['&', 'v', 's', 'n', '=', '1', '.', '0', '.', '0']);
    assert(is_simple_text(start));
    assert(is_simple_text(end));
    lemma_simple_sum(start, access_token);
    lemma_simple_sum(start + access_token, end);
    lemma_simple_sum(base, socket_path(access_token));
    if host.contains('@') {
        assert(host[host.index_of('@')] == '@');
    }
    reveal_strlit("Bearer ");
    let word = "Bearer "@;
    assert(word =~= seq!['B', 'e', 'a', 'r', 'e', 'r', ' ']);
    assert forall|i: int| 0 <= i < bearer(access_token).len() implies header_char(
        #[trigger] bearer(access_token)[i],
    ) by {
        if i < word.len() {
            assert(bearer(access_token)[i] == word[i]);
        } else {
            assert(is_simple_char(access_token[i - word.len()]));
        }
    }
}

/// A simple endpoint with simple params has a socket with simple parts.
proof fn lemma_simple_target(endpoint: Seq<char>, access_token: Seq<char>, params: Seq<char>)
    ensures
        forall|scheme: Seq<char>, host: Seq<char>, base: Seq<char>| #[trigger]
            is_simple_endpoint(endpoint, scheme, host, base, access_token) && is_simple_text(params)
                ==> {
                &&& !access_token.contains('#')
                &&& is_simple_uri(
                    endpoint_uri(endpoint, access_token),
                    scheme,
                    host,
                    base + socket_path(access_token),
                )
                &&& is_simple_text(base + socket_path(access_token) + params)
                &&& is_plain_scheme(socket_scheme(Some(scheme)))
                &&& socket_scheme(Some(scheme)).len() <= 64
                &&& host_part(host) == host
                &&& is_header_value(bearer(access_token))
            },
{
    assert forall|scheme: Seq<char>, host: Seq<char>, base: Seq<char>| #[trigger]
        is_simple_endpoint(endpoint, scheme, host, base, access_token) && is_simple_text(
            params,
        ) implies {
        &&& !access_token.contains('#')
        &&& is_simple_uri(
            endpoint_uri(endpoint, access_token),
            scheme,
            host,
            base + socket_path(access_token),
        )
        &&& is_simple_text(base + socket_path(access_token) + params)
        &&& is_plain_scheme(socket_scheme(Some(scheme)))
        &&& socket_scheme(Some(scheme)).len() <= 64
        &&& host_part(host) == host
        &&& is_header_value(bearer(access_token))
    } by {
        lemma_simple_endpoint(endpoint, access_token, scheme, host, base);
        lemma_simple_sum(base + socket_path(access_token), params);
        reveal_strlit("ws");
        reveal_strlit("wss");
        assert("ws"@ =~= seq!['w', 's']);
        assert("wss"@ =~= seq!['w', 's', 's']);
    }
}

proof fn lemma_contains_in_sum(a: Seq<char>, b: Seq<char>, c: char)
    ensures
        (a + b).contains(c) <==> a.contains(c) || b.contains(c),
{
    if a.contains(c) {
        assert((a + b)[a.index_of(c)] == c);
    }
    if b.contains(c) {
        assert((a + b)[a.len() + b.index_of(c)] == c);
    }
}

proof fn lemma_socket_path(access_token: Seq<char>)
    ensures
        socket_path(access_token).len() > 0,
        socket_path(access_token)[0] == '/',
        !access_token.contains('#') ==> is_plain_path(socket_path(access_token)),
{
    reveal_strlit("/realtime/v1/websocket?apikey=");
    reveal_strlit("&vsn=1.0.0");
    let start = "/realtime/v1/websocket?apikey="@;
    let end = "&vsn=1.0.0"@;
    assert(start =~= seq![
        '/', 'r', 'e', 'a', 'l', 't', 'i', 'm', 'e', '/', 'v', '1', '/', 'w', 'e', 'b', 's', 'o',
        'c', 'k', 'e', 't', '?', 'a', 'p', 'i', 'k', 'e', 'y', '=',
    ]);
    assert(end =~= seq!['&', 'v', 's', 'n', '=', '1', '.', '0', '.', '0']);
    lemma_contains_in_sum(start, access_token, '#');
    lemma_contains_in_sum(start + access_token, end, '#');
}

proof fn lemma_endpoint_uri(endpoint: Seq<char>, access_token: Seq<char>)
    ensures
        endpoint_uri(endpoint, access_token) == endpoint + socket_path(access_token),
        endpoint_uri(endpoint, access_token).len() > 1,
        endpoint_uri(endpoint, access_token).contains('/'),
{
    let text = endpoint_uri(endpoint, access_token);
    lemma_socket_path(access_token);
    reveal_strlit("&vsn=1.0.0");
    assert(text =~= endpoint + socket_path(access_token));
    assert(text[endpoint.len() as int] == '/');
}

proof fn lemma_plain_endpoint(
    endpoint: Seq<char>,
    access_token: Seq<char>,
    scheme: Seq<char>,
    host: Seq<char>,
    base: Seq<char>,
)
    requires
        is_plain_endpoint(endpoint, scheme, host, base),
        !access_token.contains('#'),
    ensures
        is_plain_uri(
            endpoint_uri(endpoint, access_token),
            scheme,
            host,
            base + socket_path(access_token),
        ),
{
    lemma_endpoint_uri(endpoint, access_token);
    lemma_socket_path(access_token);
    lemma_contains_in_sum(base, socket_path(access_token), '#');
    assert(endpoint_uri(endpoint, access_token) =~= scheme + "://"@ + host + (base + socket_path(
        access_token,
    )));
}

proof fn lemma_room(
    handshake: HeaderModel,
    host: Seq<char>,
    access_token: Seq<char>,
    given: HeaderModel,
)
    requires
        is_handshake(handshake, host),
        leaves_room(given),
    ensures
        fits(handshake.insert("authorization"@, seq![text_value(bearer(access_token))])),
        fits(with_token(handshake, access_token)),
        fits(with_token(handshake, access_token).union_prefer_right(given)),
{
    let names: Set<Seq<char>> = set![
        "host"@,
        "connection"@,
        "upgrade"@,
        "sec-websocket-version"@,
        "sec-websocket-key"@,
    ];
    assert(names.finite() && names.len() <= 5);
    let first = handshake.insert("authorization"@, seq![text_value(bearer(access_token))]);
    assert(first.dom() =~= names.insert("authorization"@));
    let both = with_token(handshake, access_token);
    assert(both.dom() =~= first.dom().insert(client_info_name()));
    assert(both.dom().len() <= 7);
    let all = both.union_prefer_right(given);
    assert(all.dom() =~= both.dom().union(given.dom()));
    vstd::set_lib::lemma_len_union(both.dom(), given.dom());
}

/// The scheme, the authority and the path of the socket behind a URI with these
/// parts, or nothing where the URI has no authority or no path.
///
/// An `http` URI has a `ws` socket, every other one a `wss` socket. The further
/// params stand behind the query, in their order.
pub fn socket_target(parts: UriParts, params: &Option<StringMap<String>>) -> (target: Option<
    (String, String, String),
>)
    ensures
        target is Some <==> parts.authority is Some && parts.path_and_query is Some,
        target matches Some((scheme, authority, path_and_query)) ==> {
            &&& scheme@ == socket_scheme(parts.scheme.model())
            &&& authority@ == parts.authority->Some_0@
            &&& path_and_query@ == parts.path_and_query->Some_0@ + extra_params(*params)
        },
{
    let scheme = choose_scheme(&parts.scheme).to_owned();
    match (parts.authority, parts.path_and_query) {
        (Some(authority), Some(path)) => {
            let mut path_and_query = path;
            let add_params = write_params(params);
            path_and_query.append(add_params.as_str());
            Some((scheme, authority, path_and_query))
        },
        _ => None,
    }
}

/// Makes the request that opens the socket behind `endpoint`, or nothing where
/// the endpoint has no address, the params do not belong in one, the token cannot
/// stand in a header, or the header map does not take all the headers.
///
/// Whether it takes them is up to how the names hash where there are many.
pub fn build_request(
    endpoint: &String,
    access_token: &String,
    params: &Option<StringMap<String>>,
    given: &HeaderMap,
) -> (request: Option<Result<ClientRequest, BadEndpoint>>)
    ensures
        request is Some ==> is_sound_target(endpoint@, access_token@, extra_params(*params)),
        is_sound_target(endpoint@, access_token@, extra_params(*params)) && (leaves_room(
            header_entries(*given),
        ) || !is_good_endpoint(endpoint@, access_token@)) ==> request is Some,
        request matches Some(made) ==> (made is Ok <==> is_good_endpoint(endpoint@, access_token@)),
        request matches Some(Ok(made)) ==> made.opens(
            endpoint@,
            access_token@,
            extra_params(*params),
            header_entries(*given),
        ) && may_fit(header_entries(made.headers)),
        forall|scheme: Seq<char>, host: Seq<char>, base: Seq<char>| #[trigger]
            is_plain_endpoint(endpoint@, scheme, host, base) && !access_token@.contains('#') ==> (
            request matches Some(Ok(made)) ==> made.is_to_socket(
                scheme,
                host,
                base,
                access_token@,
                extra_params(*params),
            )),
        forall|scheme: Seq<char>, host: Seq<char>, base: Seq<char>| #[trigger]
            is_simple_endpoint(endpoint@, scheme, host, base, access_token@) && is_simple_text(
                extra_params(*params),
            ) && leaves_room(header_entries(*given)) ==> (request matches Some(Ok(made))
                && made.is_to_socket(scheme, host, base, access_token@, extra_params(*params))),
{
    let text = write_endpoint_uri(endpoint, access_token);
    proof {
        lemma_endpoint_uri(endpoint@, access_token@);
        lemma_simple_target(endpoint@, access_token@, extra_params(*params));
    }
    let parts = match parse_uri(text.as_str()) {
        Ok(parts) => parts,
        Err(_) => {
            return Some(Err(BadEndpoint {  }));
        },
    };
    let (scheme, authority, path_and_query) = match socket_target(parts, params) {
        Some(target) => target,
        None => {
            return None;
        },
    };
    let uri = match assemble_uri(scheme.as_str(), authority.as_str(), path_and_query.as_str()) {
        Ok(uri) => uri,
        Err(_) => {
            return None;
        },
    };
    let ghost made_uri = uri@;
    proof {
        let params = extra_params(*params);
        let socket = socket_path(access_token@);
        assert forall|plain_scheme: Seq<char>, host: Seq<char>, base: Seq<char>| #[trigger]
            is_plain_endpoint(endpoint@, plain_scheme, host, base) && !access_token@.contains(
                '#',
            ) implies {
            &&& scheme@ == socket_scheme(Some(plain_scheme))
            &&& authority@ == host
            &&& path_and_query@ == base + socket + params
            &&& !params.contains('#') && path_and_query@.len() <= 65535 ==> made_uri
                == socket_scheme(Some(plain_scheme)) + "://"@ + host + base + socket + params
        } by {
            lemma_plain_endpoint(endpoint@, access_token@, plain_scheme, host, base);
            lemma_socket_path(access_token@);
            lemma_contains_in_sum(base, socket, '#');
            lemma_contains_in_sum(base + socket, params, '#');
            assert(socket_scheme(Some(plain_scheme)) + "://"@ + host + base + socket + params
                =~= socket_scheme(Some(plain_scheme)) + "://"@ + host + (base + socket + params));
        }
    }
    let mut headers = match handshake_headers(
        scheme.as_str(),
        authority.as_str(),
        path_and_query.as_str(),
    ) {
        Ok(headers) => headers,
        Err(_) => {
            return Some(Err(BadEndpoint {  }));
        },
    };
    let ghost handshake = header_entries(headers);
    let auth = write_bearer(access_token);
    if !can_be_header_value(auth.as_str()) {
        return None;
    }
    proof {
        if leaves_room(header_entries(*given)) {
            lemma_room(handshake, host_part(authority@), access_token@, header_entries(*given));
        }
        reveal_strlit("authorization");
        assert("authorization"@ =~= seq![
            'a', 'u', 't', 'h', 'o', 'r', 'i', 'z', 'a', 't', 'i', 'o', 'n',
        ]);
    }
    if try_put_header(&mut headers, "authorization", auth.as_str()) && try_put_client_info(
        &mut headers,
    ) && try_merge_headers(&mut headers, given) {
        Some(Ok(ClientRequest { scheme, authority, path_and_query, uri, headers }))
    } else {
        None
    }
}

} // verus!
