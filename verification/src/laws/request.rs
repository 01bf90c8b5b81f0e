//! The request that opens the socket.
use tungstenite::http::HeaderMap;
use vstd::prelude::*;
use vstd::utf8::encode_utf8;

use crate::headers::{header_entries, is_header_value};
use crate::laws::client::{client_name, header};
use crate::realtime_client::{ConnectError, RealtimeClient};
use crate::request::{
    build_request, extra_params, is_plain_endpoint, is_simple_endpoint, params_text, socket_target,
    with_token, BadEndpoint, ClientRequest,
};
use crate::string_map::{Deep, StringMap};
use crate::uri::{
    assembled_uri, host_part, is_handshake, is_simple_char, is_simple_text, parsed_uri, UriParts,
};

verus! {

/// The scheme of the socket: that of an unprotected endpoint is unprotected, and
/// that of every other one is protected.
pub open spec fn scheme_of(scheme: Option<Seq<char>>) -> Seq<char> {
    match scheme {
        Some(text) => if text == "http"@ {
            "ws"@
        } else {
            "wss"@
        },
        None => "wss"@,
    }
}

/// The text of a part that may be missing.
pub open spec fn part(text: Option<String>) -> Option<Seq<char>> {
    match text {
        Some(text) => Some(text@),
        None => None,
    }
}

/// The parts of a URI lead to the socket of the same authority and path, where
/// it has both; an unprotected scheme leads to an unprotected one. Without
/// further params the path stays as it is.
pub proof fn socket_has_the_same_host(
    parts: UriParts,
    params: Option<StringMap<String>>,
    target: Option<(String, String, String)>,
)
    requires
        call_ensures(socket_target, (parts, &params), target),
    ensures
        target is Some <==> parts.authority is Some && parts.path_and_query is Some,
        target matches Some((scheme, authority, path)) ==> {
            &&& scheme@ == scheme_of(part(parts.scheme))
            &&& authority@ == parts.authority->Some_0@
            &&& match params {
                None => path@ == parts.path_and_query->Some_0@,
                Some(map) => {
                    &&& parts.path_and_query->Some_0@.is_prefix_of(path@)
                    &&& map.keys().len() == 0 ==> path@ == parts.path_and_query->Some_0@
                }
            }
        },
{
    if target is Some {
        let path = target->Some_0.2@;
        let start = parts.path_and_query->Some_0@;
        assert(start =~= path.subrange(0, start.len() as int));
        if extra_params(params).len() == 0 {
            assert(path =~= start);
        }
    }
}

/// Whether further params are others with one more behind them.
pub open spec fn is_one_more(
    more: StringMap<String>,
    fewer: StringMap<String>,
    key: Seq<char>,
    value: Seq<char>,
) -> bool {
    &&& more.keys() == fewer.keys().push(key)
    &&& more@.contains_key(key)
    &&& more@[key]@ == value
    &&& forall|other: Seq<char>| #[trigger]
        fewer.keys().contains(other) ==> fewer@.contains_key(other) && more@.contains_key(other)
            && more@[other]@ == fewer@[other]@
}

/// A further param more stands behind those before it, with an ampersand before
/// it and an equals sign inside.
pub proof fn params_stand_in_a_row(
    parts: UriParts,
    fewer: StringMap<String>,
    more: StringMap<String>,
    key: Seq<char>,
    value: Seq<char>,
    first: Option<(String, String, String)>,
    second: Option<(String, String, String)>,
)
    requires
        call_ensures(socket_target, (parts, &Some(fewer)), first),
        call_ensures(socket_target, (parts, &Some(more)), second),
        is_one_more(more, fewer, key, value),
        parts.authority is Some,
        parts.path_and_query is Some,
    ensures
        first is Some && second is Some,
        second->Some_0.2@ == first->Some_0.2@ + "&"@ + key + "="@ + value,
{
    assert(more.keys().drop_last() =~= fewer.keys());
    assert(more.model()[key] == more@[key].model());
    lemma_same_params(fewer.keys(), fewer, more);
    let start = parts.path_and_query->Some_0@;
    let text = params_text(fewer.keys(), fewer.model());
    assert(start + (text + "&"@ + key + "="@ + value) =~= start + text + "&"@ + key + "="@
        + value);
}

proof fn lemma_same_params(
    keys: Seq<Seq<char>>,
    fewer: StringMap<String>,
    more: StringMap<String>,
)
    requires
        forall|other: Seq<char>| #[trigger]
            keys.contains(other) ==> fewer@.contains_key(other) && more@.contains_key(other)
                && more@[other]@ == fewer@[other]@,
    ensures
        params_text(keys, fewer.model()) == params_text(keys, more.model()),
    decreases keys.len(),
{
    if keys.len() > 0 {
        let front = keys.drop_last();
        assert(keys.contains(keys.last()));
        assert(fewer.model()[keys.last()] == fewer@[keys.last()].model());
        assert(more.model()[keys.last()] == more@[keys.last()].model());
        assert forall|other: Seq<char>| #[trigger]
            front.contains(other) implies fewer@.contains_key(other) && more@.contains_key(other)
            && more@[other]@ == fewer@[other]@ by {
            assert(keys[front.index_of(other)] == other);
            assert(keys.contains(other));
        }
        lemma_same_params(front, fewer, more);
    }
}

/// Whether a text has no control character but tabs.
pub open spec fn is_printable(text: Seq<char>) -> bool {
    forall|i: int|
        0 <= i < text.len() ==> #[trigger] text[i] == '\t' || text[i] >= ' ' && text[i]
            != '\u{7f}'
}

proof fn lemma_printable(access_token: Seq<char>)
    ensures
        is_header_value("Bearer "@ + access_token) <==> is_printable(access_token),
{
    reveal_strlit("Bearer ");
    let word = "Bearer "@;
    let all = word + access_token;
    assert(word =~= seq!['B', 'e', 'a', 'r', 'e', 'r', ' ']);
    if is_header_value(all) {
        assert forall|i: int| 0 <= i < access_token.len() implies #[trigger] access_token[i] == '\t'
            || access_token[i] >= ' ' && access_token[i] != '\u{7f}' by {
            assert(all[word.len() + i] == access_token[i]);
        }
    }
    if is_printable(access_token) {
        assert forall|i: int| 0 <= i < all.len() implies crate::headers::header_char(
            #[trigger] all[i],
        ) by {
            if i < word.len() {
                assert(all[i] == word[i]);
            } else {
                assert(all[i] == access_token[i - word.len()]);
            }
        }
    }
}

/// What becomes of an attempt to make a request.
pub enum Attempt {
    /// The request is made.
    Made(ClientRequest),
    /// The endpoint is bad.
    Bad,
    /// There is nothing that could be sent.
    Nothing,
}

/// Whether what becomes of an attempt is right. An endpoint that is no URI is
/// bad, and so is one without a host. Without an authority, a path, an address of
/// the socket or a token that can be sent, there is nothing. Otherwise the
/// request is made, to that address, unless the header map does not take all
/// headers, which it does where they are few.
pub open spec fn is_right(
    attempt: Attempt,
    endpoint: Seq<char>,
    access_token: Seq<char>,
    params: Seq<char>,
    given: HeaderMap,
) -> bool {
    let text = endpoint + "/realtime/v1/websocket?apikey="@ + access_token + "&vsn=1.0.0"@;
    match parsed_uri(text) {
        None => attempt is Bad,
        Some((scheme, Some(authority), Some(path))) => {
            let address = assembled_uri(scheme_of(scheme), authority, path + params);
            if address is None {
                attempt is Nothing
            } else if host_part(authority).len() == 0 {
                attempt is Bad
            } else if !is_printable(access_token) {
                attempt is Nothing
            } else {
                &&& !(attempt is Bad)
                &&& header_entries(given).dom().finite() && header_entries(given).dom().len()
                    <= 6546 ==> attempt is Made
                &&& attempt matches Attempt::Made(request) ==> {
                    &&& request.scheme@ == scheme_of(scheme)
                    &&& request.authority@ == authority
                    &&& request.path_and_query@ == path + params
                    &&& Some(request.uri@) == address
                    &&& header_entries(request.headers).dom().len() <= 24576
                    &&& forall|name: Seq<char>| #[trigger]
                        is_right_header(
                            header(request.headers, name),
                            name,
                            authority,
                            access_token,
                            header(given, name),
                        )
                }
            }
        },
        Some(_) => attempt is Nothing,
    }
}

/// The value of a header that is one text.
pub open spec fn one_text(text: Seq<char>) -> Option<Seq<(Seq<u8>, bool)>> {
    Some(seq![(encode_utf8(text), false)])
}

/// Whether a request has the right header under a name: what the client was
/// given, or else what names the client, carries its token or asks the host for
/// a websocket, and nothing under any other name.
pub open spec fn is_right_header(
    value: Option<Seq<(Seq<u8>, bool)>>,
    name: Seq<char>,
    authority: Seq<char>,
    access_token: Seq<char>,
    given: Option<Seq<(Seq<u8>, bool)>>,
) -> bool {
    if given is Some {
        value == given
    } else if name == "x-client-info"@ {
        value == client_name()
    } else if name == "authorization"@ {
        value == one_text("Bearer "@ + access_token)
    } else if name == "host"@ {
        value == one_text(host_part(authority))
    } else if name == "connection"@ {
        value == one_text("Upgrade"@)
    } else if name == "upgrade"@ {
        value == one_text("websocket"@)
    } else if name == "sec-websocket-version"@ {
        value == one_text("13"@)
    } else if name == "sec-websocket-key"@ {
        value matches Some(keys) && keys.len() == 1 && keys[0].0.len() == 24 && !keys[0].1
    } else {
        value is None
    }
}

proof fn lemma_right_headers(
    request: ClientRequest,
    authority: Seq<char>,
    access_token: Seq<char>,
    given: HeaderMap,
)
    requires
        crate::request::is_request_headers(
            header_entries(request.headers),
            host_part(authority),
            access_token,
            header_entries(given),
        ),
    ensures
        forall|name: Seq<char>| #[trigger]
            is_right_header(
                header(request.headers, name),
                name,
                authority,
                access_token,
                header(given, name),
            ),
{
    let host = host_part(authority);
    let handshake = choose|handshake: crate::headers::HeaderModel|
        #![trigger is_handshake(handshake, host)]
        is_handshake(handshake, host) && header_entries(request.headers) == with_token(
            handshake,
            access_token,
        ).union_prefer_right(header_entries(given));
    assert forall|name: Seq<char>| #[trigger]
        is_right_header(
            header(request.headers, name),
            name,
            authority,
            access_token,
            header(given, name),
        ) by {
        assert(handshake.contains_key(name) <==> (name == "host"@ || name == "connection"@ || name
            == "upgrade"@ || name == "sec-websocket-version"@ || name == "sec-websocket-key"@));
    }
}

/// A request is made if and only if it is right to make one, and then is the
/// right one.
pub proof fn right_request_is_made(
    endpoint: String,
    access_token: String,
    params: Option<StringMap<String>>,
    given: HeaderMap,
    request: Option<Result<ClientRequest, BadEndpoint>>,
)
    requires
        call_ensures(build_request, (&endpoint, &access_token, &params, &given), request),
    ensures
        is_right(
            match request {
                Some(Ok(made)) => Attempt::Made(made),
                Some(Err(_)) => Attempt::Bad,
                None => Attempt::Nothing,
            },
            endpoint@,
            access_token@,
            extra_params(params),
            given,
        ),
{
    lemma_printable(access_token@);
    if let Some(Ok(made)) = request {
        lemma_right_headers(made, made.authority@, access_token@, given);
    }
}

/// A client makes the right request, with its endpoint, its token, its params
/// and its headers, and its endpoint is bad where there is none.
pub proof fn client_makes_the_right_request<R, E, D>(
    client: RealtimeClient<R, E, D>,
    request: Option<Result<ClientRequest, ConnectError>>,
)
    requires
        call_ensures(RealtimeClient::<R, E, D>::build_request, (&client,), request),
    ensures
        is_right(
            match request {
                Some(Ok(made)) => Attempt::Made(made),
                Some(Err(_)) => Attempt::Bad,
                None => Attempt::Nothing,
            },
            client.endpoint@,
            client.access_token@,
            extra_params(client.params),
            client.headers,
        ),
        request matches Some(Err(error)) ==> error == ConnectError::BadUri,
{
    lemma_printable(client.access_token@);
    if let Some(Ok(made)) = request {
        lemma_right_headers(made, made.authority@, client.access_token@, client.headers);
    }
}

/// Whether an endpoint is written as a scheme, a host and a base path, which may
/// be missing.
pub open spec fn is_written_as(
    endpoint: Seq<char>,
    scheme: Seq<char>,
    host: Seq<char>,
    base: Seq<char>,
) -> bool {
    &&& endpoint == scheme + "://"@ + host + base
    &&& scheme.len() > 0
    &&& forall|i: int| 0 <= i < scheme.len() ==> 'a' <= #[trigger] scheme[i] <= 'z'
    &&& host.len() > 0
    &&& !host.contains('/') && !host.contains('?') && !host.contains('#')
    &&& base.len() == 0 || base[0] == '/' && !base.contains('#')
}

/// Whether a request is to the socket of a host, below a base path, with the
/// token and the further params in its query.
pub open spec fn is_to(
    request: ClientRequest,
    scheme: Seq<char>,
    host: Seq<char>,
    base: Seq<char>,
    access_token: Seq<char>,
    params: Seq<char>,
) -> bool {
    let path = base + "/realtime/v1/websocket?apikey="@ + access_token + "&vsn=1.0.0"@ + params;
    &&& request.scheme@ == scheme_of(Some(scheme))
    &&& request.authority@ == host
    &&& request.path_and_query@ == path
    &&& !params.contains('#') && path.len() <= 65535 ==> request.uri@ == scheme_of(Some(scheme))
        + "://"@ + host + path
}

/// A request that a client makes with a written-out endpoint is to the socket of
/// the host that stands there.
pub proof fn request_is_to_the_host<R, E, D>(
    client: RealtimeClient<R, E, D>,
    request: ClientRequest,
    scheme: Seq<char>,
    host: Seq<char>,
    base: Seq<char>,
)
    requires
        call_ensures(
            RealtimeClient::<R, E, D>::build_request,
            (&client,),
            Some(Ok::<ClientRequest, ConnectError>(request)),
        ),
        is_written_as(client.endpoint@, scheme, host, base),
        !client.access_token@.contains('#'),
    ensures
        is_to(
            request,
            scheme,
            host,
            base,
            client.access_token@,
            extra_params(client.params),
        ),
{
    assert(is_plain_endpoint(client.endpoint@, scheme, host, base));
    lemma_is_to(request, scheme, host, base, client.access_token@, extra_params(client.params));
}

proof fn lemma_is_to(
    request: ClientRequest,
    scheme: Seq<char>,
    host: Seq<char>,
    base: Seq<char>,
    access_token: Seq<char>,
    params: Seq<char>,
)
    requires
        request.is_to_socket(scheme, host, base, access_token, params),
    ensures
        is_to(request, scheme, host, base, access_token, params),
{
    let path = base + "/realtime/v1/websocket?apikey="@ + access_token + "&vsn=1.0.0"@ + params;
    let socket = "/realtime/v1/websocket?apikey="@ + access_token + "&vsn=1.0.0"@;
    assert(base + socket + params =~= path);
    assert(scheme_of(Some(scheme)) + "://"@ + host + base + socket + params =~= scheme_of(
        Some(scheme),
    ) + "://"@ + host + path);
}

/// Whether a text holds only letters, digits and `-._~/?=&`.
pub open spec fn is_unreserved(text: Seq<char>) -> bool {
    forall|i: int|
        0 <= i < text.len() ==> {
            let c = #[trigger] text[i];
            ||| 'a' <= c <= 'z'
            ||| 'A' <= c <= 'Z'
            ||| '0' <= c <= '9'
            ||| c == '-' || c == '.' || c == '_' || c == '~'
            ||| c == '/' || c == '?' || c == '=' || c == '&'
        }
}

/// Whether a host is a name or an address in letters, digits and `-.`, with at
/// most a port behind it.
pub open spec fn is_host_name(host: Seq<char>) -> bool {
    &&& forall|i: int|
        0 <= i < host.len() ==> {
            let c = #[trigger] host[i];
            ||| 'a' <= c <= 'z'
            ||| 'A' <= c <= 'Z'
            ||| '0' <= c <= '9'
            ||| c == '-' || c == '.' || c == ':'
        }
    &&& forall|i: int, j: int|
        0 <= i < j < host.len() ==> !(#[trigger] host[i] == ':' && #[trigger] host[j] == ':')
}

/// An ordinary endpoint, with an ordinary token and few headers, has a request,
/// and it is to the socket of the host that stands in the endpoint.
pub proof fn ordinary_endpoint_has_a_request<R, E, D>(
    client: RealtimeClient<R, E, D>,
    request: Option<Result<ClientRequest, ConnectError>>,
    scheme: Seq<char>,
    host: Seq<char>,
    base: Seq<char>,
)
    requires
        call_ensures(RealtimeClient::<R, E, D>::build_request, (&client,), request),
        is_written_as(client.endpoint@, scheme, host, base),
        scheme.len() <= 64,
        is_host_name(host),
        is_unreserved(base),
        is_unreserved(client.access_token@),
        is_unreserved(extra_params(client.params)),
        client.endpoint@.len() + client.access_token@.len() <= 65000,
        header_entries(client.headers).dom().finite(),
        header_entries(client.headers).dom().len() <= 6546,
    ensures
        request matches Some(Ok(made)) && is_to(
            made,
            scheme,
            host,
            base,
            client.access_token@,
            extra_params(client.params),
        ),
{
    reveal_strlit("/realtime/v1/websocket?apikey=");
    reveal_strlit("&vsn=1.0.0");
    assert(is_plain_endpoint(client.endpoint@, scheme, host, base));
    assert(is_simple_text(base)) by {
        assert forall|i: int| 0 <= i < base.len() implies is_simple_char(#[trigger] base[i]) by {}
    }
    let token = client.access_token@;
    assert(is_simple_text(token)) by {
        assert forall|i: int| 0 <= i < token.len() implies is_simple_char(#[trigger] token[i]) by {}
    }
    let params = extra_params(client.params);
    assert(is_simple_text(params)) by {
        assert forall|i: int| 0 <= i < params.len() implies is_simple_char(
            #[trigger] params[i],
        ) by {}
    }
    assert(is_simple_endpoint(client.endpoint@, scheme, host, base, token));
    lemma_is_to(request->Some_0->Ok_0, scheme, host, base, token, params);
}

/// The host of an authority stands behind the user, and is all of it where there
/// is no user.
pub proof fn host_stands_behind_the_user(user: Seq<char>, host: Seq<char>)
    requires
        !user.contains('@'),
    ensures
        host_part(user + seq!['@'] + host) == host,
        !host.contains('@') ==> host_part(host) == host,
{
    let authority = user + seq!['@'] + host;
    assert(authority[user.len() as int] == '@');
    assert(authority.contains('@'));
    authority.index_of_first_ensures('@');
    let at = authority.index_of_first('@')->Some_0;
    if at < user.len() {
        assert(authority[at] == user[at]);
        assert(user.contains('@'));
    }
    assert(authority.skip(user.len() as int + 1) =~= host);
}

} // verus!
