//! Where device messages go, and what is posted.
use crate::client::{DeviceMessageStep, RelayClient};
use crate::endpoint;
use crate::endpoint::EndpointPlan;
use crate::error::RelayError;
use crate::message::RelayMessage;
use crate::relay_url;
use crate::relay_url::{CharClass, UrlParts, UrlView};
use vstd::prelude::*;

verus! {

/// Whether a text is made of one to 128 letters, digits, dashes, underscores and
/// dots, and is not one or two dots.
pub open spec fn names_a_device(id: Seq<char>) -> bool {
    &&& 1 <= id.len() <= 128
    &&& forall|i: int|
        0 <= i < id.len() ==> ('a' <= #[trigger] id[i] <= 'z') || ('A' <= id[i] <= 'Z') || ('0'
            <= id[i] <= '9') || id[i] == '-' || id[i] == '_' || id[i] == '.'
    &&& id != seq!['.']
    &&& id != seq!['.', '.']
}

/// Whether a text ends in a slash and the letters `ws`.
pub open spec fn ends_in_ws(path: Seq<char>) -> bool {
    let n = path.len() as int;
    n >= 3 && path[n - 3] == '/' && path[n - 2] == 'w' && path[n - 1] == 's'
}

/// Whether a serialised URL has a query or a fragment.
pub open spec fn has_marks(href: Seq<char>) -> bool {
    exists|i: int| 0 <= i < href.len() && (#[trigger] href[i] == '?' || href[i] == '#')
}

/// Whether a URL is that of a relay WebSocket: of the scheme `ws` or `wss`, without
/// user, password, query and fragment, and with a path that ends in `/ws`.
pub open spec fn is_relay_url(url: UrlView) -> bool {
    &&& url.scheme == "ws"@ || url.scheme == "wss"@
    &&& url.username.len() == 0
    &&& url.password is None
    &&& !has_marks(url.href)
    &&& ends_in_ws(url.path)
}

/// Whether `r` is where messages for the device `id` go on the relay that `ws_url`
/// names. There is such a place exactly for a device name and the URL of a relay
/// WebSocket; it is that URL with the HTTP scheme of the same security and with
/// `/api/devices/`, the device and `/messages` in the place of the last segment.
/// What is wrong with the device is told first, and then what is wrong with the
/// URL: that it is none, its scheme, what it should not have, its path.
pub open spec fn is_place_for(
    ws_url: Seq<char>,
    id: Seq<char>,
    r: Result<String, RelayError>,
) -> bool {
    let parsed = relay_url::url_parsed(ws_url);
    let url = parsed->Ok_0;
    let other_scheme = url.scheme != "ws"@ && url.scheme != "wss"@;
    let too_much = url.username.len() > 0 || url.password is Some || has_marks(url.href);
    &&& r is Ok <==> names_a_device(id) && parsed is Ok && is_relay_url(url)
    &&& r matches Ok(place) ==> place@ == (if url.scheme == "wss"@ {
        "https"@
    } else {
        "http"@
    }) + url.href.subrange(url.scheme.len() as int, url.href.len() - 3) + "/api/devices/"@ + id
        + "/messages"@
    &&& r == Err::<String, RelayError>(RelayError::InvalidTarget) <==> !names_a_device(id)
    &&& names_a_device(id) && parsed is Err ==> (r matches Err(RelayError::InvalidUrl { reason })
        && reason@ == parsed->Err_0)
    &&& names_a_device(id) && parsed is Ok ==> {
        &&& other_scheme ==> r == Err::<String, RelayError>(RelayError::InvalidScheme)
        &&& !other_scheme && too_much ==> r == Err::<String, RelayError>(
            RelayError::InvalidEndpoint,
        )
        &&& !other_scheme && !too_much && !ends_in_ws(url.path) ==> r == Err::<String, RelayError>(
            RelayError::InvalidPath,
        )
    }
}

/// Whether a relay URL and a device are of ordinary length: no counter and no
/// offset of the URL type comes near its end, and the serialised URL has room for
/// its scheme and a last segment.
pub open spec fn is_ordinary(ws_url: Seq<char>, id: Seq<char>) -> bool {
    &&& ws_url.len() <= i32::MAX
    &&& relay_url::url_parsed(ws_url) matches Ok(url) ==> url.scheme.len() + 3 <= url.href.len()
        && url.href.len() + id.len() + 23 <= u32::MAX
}

proof fn lemma_target(id: Seq<char>)
    ensures
        endpoint::valid_target(id) == names_a_device(id),
{
    reveal_strlit(".");
    reveal_strlit("..");
    assert("."@ =~= seq!['.']);
    assert(".."@ =~= seq!['.', '.']);
    assert(forall|c: char|
        endpoint::target_char(c) <==> ('a' <= c <= 'z') || ('A' <= c <= 'Z') || ('0' <= c <= '9')
            || c == '-' || c == '_' || c == '.');
    if names_a_device(id) {
        assert forall|i: int| 0 <= i < id.len() implies endpoint::target_char(#[trigger] id[i]) by {}
    }
    if endpoint::valid_target(id) {
        assert forall|i: int| 0 <= i < id.len() implies ('a' <= #[trigger] id[i] <= 'z') || ('A'
            <= id[i] <= 'Z') || ('0' <= id[i] <= '9') || id[i] == '-' || id[i] == '_' || id[i]
            == '.' by {
            assert(endpoint::target_char(id[i]));
        }
    }
}

proof fn lemma_socket_path(path: Seq<char>)
    ensures
        endpoint::is_socket_path(path) == ends_in_ws(path),
{
    reveal_strlit("/ws");
    let n = path.len() as int;
    if n >= 3 {
        let tail = path.subrange(n - 3, n);
        assert(tail[0] == path[n - 3] && tail[1] == path[n - 2] && tail[2] == path[n - 1]);
        if ends_in_ws(path) {
            assert(tail =~= "/ws"@);
        }
    }
}

proof fn lemma_tail(url: UrlView)
    ensures
        url.has_tail() == has_marks(url.href),
{
    relay_url::lemma_span(url.href, CharClass::BeforeTail);
    relay_url::lemma_span(url.href, CharClass::BeforeFragment);
    if url.has_tail() {
        if url.query() is Some {
            assert(url.href[url.tail_start() as int] == '?');
        } else {
            assert(url.href[relay_url::span(url.href, CharClass::BeforeFragment) as int] == '#');
        }
    } else {
        relay_url::lemma_no_tail(url);
        assert forall|i: int| 0 <= i < url.href.len() implies !(#[trigger] url.href[i] == '?'
            || url.href[i] == '#') by {
            assert(CharClass::BeforeTail.has(url.href[i]));
        }
    }
}

proof fn lemma_place(ws_url: Seq<char>, id: Seq<char>, r: Result<String, RelayError>)
    requires
        endpoint::endpoint_outcome(relay_url::url_parsed(ws_url), id, r),
    ensures
        is_place_for(ws_url, id, r),
{
    lemma_target(id);
    reveal_strlit("ws");
    reveal_strlit("wss");
    if let Ok(url) = relay_url::url_parsed(ws_url) {
        lemma_socket_path(url.path);
        lemma_tail(url);
    }
}

proof fn lemma_ordinary(ws_url: Seq<char>, id: Seq<char>)
    requires
        is_ordinary(ws_url, id),
    ensures
        endpoint::endpoint_fits(ws_url, id),
{
    relay_url::law_texts_of_ordinary_length_are_countable(ws_url);
    if let Ok(url) = relay_url::url_parsed(ws_url) {
        relay_url::lemma_span(url.href, CharClass::BeforeTail);
        lemma_socket_path(url.path);
        reveal_strlit("http");
        reveal_strlit("https");
        reveal_strlit("ws");
        reveal_strlit("wss");
        reveal_strlit("/api/devices/");
        reveal_strlit("/messages");
    }
}

/// The endpoint lookup gives the place for messages to the device on the relay.
pub proof fn law_messages_go_to_the_place_of_their_device(
    ws_url: &str,
    id: &str,
    r: Result<String, RelayError>,
)
    requires
        endpoint::endpoint_fits(ws_url@, id@),
        call_ensures(endpoint::device_message_endpoint, (ws_url, id), r),
    ensures
        is_place_for(ws_url@, id@, r),
{
    lemma_place(ws_url@, id@, r);
}

/// The checked endpoint lookup gives the same, and gives something for every relay
/// URL and device of ordinary length.
pub proof fn law_the_checked_lookup_gives_the_place(
    ws_url: &str,
    id: &str,
    r: Option<Result<String, RelayError>>,
)
    requires
        call_ensures(endpoint::checked_device_message_endpoint, (ws_url, id), r),
    ensures
        r matches Some(place) ==> is_place_for(ws_url@, id@, place),
        r matches Some(Ok(place)) ==> place@.len() <= u32::MAX,
        !names_a_device(id@) || is_ordinary(ws_url@, id@) ==> r is Some,
{
    lemma_target(id@);
    if let Some(place) = r {
        lemma_place(ws_url@, id@, place);
    }
    if is_ordinary(ws_url@, id@) {
        lemma_ordinary(ws_url@, id@);
    }
}

/// A device message is posted exactly as it was given: to the place of its device
/// on the relay of the connection, under the account token of the connection, and
/// with the device, the correlation id, the payload and the nonce of the caller,
/// character for character. Without an account it is refused; with one it is
/// refused only for want of such a place.
pub proof fn law_device_messages_are_posted_as_given(
    client: &RelayClient,
    target: &str,
    correlation: &str,
    data: &str,
    number: &str,
    step: DeviceMessageStep,
)
    requires
        call_ensures(
            RelayClient::send_device_message,
            (client, target, correlation, data, number),
            step,
        ),
    ensures
        match client.lifecycle.reconnect_ctx {
            None => step == (DeviceMessageStep::Refuse { error: RelayError::NotAuthenticated }),
            Some(ctx) => if ctx.token@.len() == 0 {
                step == (DeviceMessageStep::Refuse { error: RelayError::NotAuthenticated })
            } else {
                &&& step matches DeviceMessageStep::Refuse { error } ==> is_place_for(
                    ctx.ws_url@,
                    target@,
                    Err(error),
                )
                &&& step matches DeviceMessageStep::Post { request } ==> {
                    &&& is_place_for(ctx.ws_url@, target@, Ok(request.endpoint))
                    &&& request.token@ == ctx.token@
                    &&& request.message matches RelayMessage::DeviceMessage {
                        target_device_id,
                        correlation_id,
                        encrypted_data,
                        nonce,
                    }
                    &&& target_device_id@ == target@
                    &&& correlation_id@ == correlation@
                    &&& encrypted_data@ == data@
                    &&& nonce@ == number@
                }
                &&& !names_a_device(target@) || is_ordinary(ctx.ws_url@, target@) ==> !(
                step is Overflow)
            },
        },
{
    lemma_target(target@);
    let owner = client.lifecycle@;
    assert(owner.ctx is Some <==> client.lifecycle.reconnect_ctx is Some);
    if let Some(ctx) = client.lifecycle.reconnect_ctx {
        if ctx.token@.len() > 0 {
            if let DeviceMessageStep::Refuse { error } = step {
                lemma_place(ctx.ws_url@, target@, Err(error));
            }
            if let DeviceMessageStep::Post { request } = step {
                lemma_place(ctx.ws_url@, target@, Ok(request.endpoint));
            }
            if is_ordinary(ctx.ws_url@, target@) {
                lemma_ordinary(ctx.ws_url@, target@);
            }
        }
    }
}

/// A device id is valid exactly if it names a device.
pub proof fn law_valid_ids_name_devices(id: &str, r: bool)
    requires
        call_ensures(endpoint::is_valid_target, (id,), r),
    ensures
        r <==> names_a_device(id@),
{
    lemma_target(id@);
}

/// A URL goes by its scheme and its user: a WebSocket URL without user and
/// password has the HTTP scheme of the same security, and any other has none.
pub proof fn law_origins_go_by_scheme_and_user(
    url: &UrlParts,
    r: Result<&'static str, RelayError>,
)
    requires
        call_ensures(endpoint::http_origin, (url,), r),
    ensures
        url.scheme@ != "ws"@ && url.scheme@ != "wss"@ ==> r == Err::<&'static str, RelayError>(
            RelayError::InvalidScheme,
        ),
        url.scheme@ == "ws"@ || url.scheme@ == "wss"@ ==> if url.username@.len() > 0
            || url.password is Some {
            r == Err::<&'static str, RelayError>(RelayError::InvalidEndpoint)
        } else {
            r matches Ok(http) && http@ == if url.scheme@ == "wss"@ {
                "https"@
            } else {
                "http"@
            }
        },
{
    reveal_strlit("ws");
    reveal_strlit("wss");
}

/// A plan is made exactly for a WebSocket URL without user and password, with
/// nothing behind its path and with `/ws` at the end of it; it takes the HTTP
/// scheme of the same security and puts `/api/devices/`, the device and
/// `/messages` in the place of the last segment.
pub proof fn law_plans_replace_scheme_and_last_segment(
    url: &UrlParts,
    has_tail: bool,
    id: &str,
    r: Result<EndpointPlan, RelayError>,
)
    requires
        call_ensures(endpoint::plan_endpoint, (url, has_tail, id), r),
    ensures
        url.scheme@ != "ws"@ && url.scheme@ != "wss"@ ==> r == Err::<EndpointPlan, RelayError>(
            RelayError::InvalidScheme,
        ),
        url.scheme@ == "ws"@ || url.scheme@ == "wss"@ ==> if url.username@.len() > 0
            || url.password is Some || has_tail {
            r == Err::<EndpointPlan, RelayError>(RelayError::InvalidEndpoint)
        } else if !ends_in_ws(url.path@) {
            r == Err::<EndpointPlan, RelayError>(RelayError::InvalidPath)
        } else {
            r matches Ok(plan) && plan.scheme@ == (if url.scheme@ == "wss"@ {
                "https"@
            } else {
                "http"@
            }) && plan.path@ == url.path@.take(url.path@.len() - 3) + "/api/devices/"@ + id@
                + "/messages"@
        },
{
    reveal_strlit("ws");
    reveal_strlit("wss");
    lemma_socket_path(url.path@);
    assert(url.path@.take(url.path@.len() - 3) =~= endpoint::base_path(url.path@));
}

} // verus!
