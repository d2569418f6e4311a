//! Where device payloads are submitted: the HTTP endpoint beside the relay
//! WebSocket.
use crate::error::RelayError;
use crate::relay_url;
use crate::relay_url::{
    does_tail_fit, is_countable, parse_url, reads_tail, rewrite_url, UrlParts, UrlView,
};
use crate::text::{join3, same_text};
use vstd::prelude::*;

verus! {

/// The longest target device id.
pub const MAX_TARGET_DEVICE_ID_LEN: usize = 128;

/// A character of a target device id.
pub open spec fn target_char(c: char) -> bool {
    ('0' <= c <= '9') || ('A' <= c <= 'Z') || ('a' <= c <= 'z') || c == '-' || c == '_' || c == '.'
}

/// A text that may name a target device: it stands as one path segment
/// without encoding, and is not resolved as a dot segment.
pub open spec fn valid_target(id: Seq<char>) -> bool {
    &&& 0 < id.len() <= MAX_TARGET_DEVICE_ID_LEN
    &&& forall|i: int| 0 <= i < id.len() ==> target_char(#[trigger] id[i])
    &&& id != "."@
    &&& id != ".."@
}

/// The last segment of a relay WebSocket path.
pub open spec fn socket_suffix() -> Seq<char> {
    "/ws"@
}

/// Whether a path is that of a relay WebSocket.
pub open spec fn is_socket_path(path: Seq<char>) -> bool {
    path.len() >= 3 && path.subrange(path.len() - 3, path.len() as int) == socket_suffix()
}

/// The part of a relay WebSocket path that the relay's other paths share.
pub open spec fn base_path(path: Seq<char>) -> Seq<char> {
    path.subrange(0, path.len() - 3)
}

/// The path that takes messages for a device.
pub open spec fn message_path(base: Seq<char>, id: Seq<char>) -> Seq<char> {
    base + "/api/devices/"@ + id + "/messages"@
}

/// The endpoint that takes messages for a device: the relay WebSocket URL with
/// the HTTP scheme, the last path segment replaced and nothing else changed.
pub open spec fn endpoint_text(url: UrlView, id: Seq<char>) -> Seq<char> {
    message_path(
        relay_url::http_scheme(url.scheme)->0 + url.href.subrange(
            url.scheme.len() as int,
            url.href.len() - 3,
        ),
        id,
    )
}

/// Why a URL offers no endpoint by its scheme and its user, if it does not.
pub open spec fn origin_refusal(url: UrlView) -> Option<RelayError> {
    if !url.is_web_socket() {
        Some(RelayError::InvalidScheme)
    } else if url.username.len() > 0 || url.password is Some {
        Some(RelayError::InvalidEndpoint)
    } else {
        None
    }
}

/// Why a URL offers no endpoint, if it does not; `has_tail` says whether anything
/// follows its path.
pub open spec fn refusal(url: UrlView, has_tail: bool) -> Option<RelayError> {
    match origin_refusal(url) {
        Some(error) => Some(error),
        None => if has_tail {
            Some(RelayError::InvalidEndpoint)
        } else if !is_socket_path(url.path) {
            Some(RelayError::InvalidPath)
        } else {
            None
        },
    }
}

/// Why a URL offers no endpoint, if it does not.
pub open spec fn url_refusal(url: UrlView) -> Option<RelayError> {
    refusal(url, url.has_tail())
}

/// What the endpoint lookup returns for a relay URL that parsed as `parsed`.
pub open spec fn endpoint_outcome(
    parsed: Result<UrlView, Seq<char>>,
    id: Seq<char>,
    r: Result<String, RelayError>,
) -> bool {
    if !valid_target(id) {
        r == Err::<String, RelayError>(RelayError::InvalidTarget)
    } else {
        match parsed {
            Err(complaint) => r matches Err(RelayError::InvalidUrl { reason }) && reason@
                == complaint,
            Ok(url) => match url_refusal(url) {
                Some(error) => r == Err::<String, RelayError>(error),
                None => r matches Ok(endpoint) && endpoint@ == endpoint_text(url, id),
            },
        }
    }
}

/// Whether the URL parser can count its way through the relay URL, and the URL
/// type's 32-bit offsets reach over what follows its path and over the endpoint.
/// A refused target needs no parsing, what follows the path is read only of a URL
/// that its scheme and its user do not refuse, and what is refused has no
/// endpoint.
pub open spec fn endpoint_fits(ws_url: Seq<char>, id: Seq<char>) -> bool {
    valid_target(id) ==> {
        &&& relay_url::countable(ws_url)
        &&& relay_url::url_parsed(ws_url) matches Ok(url) ==> {
            &&& origin_refusal(url) is None ==> url.tail_fits()
            &&& url_refusal(url) is None ==> endpoint_text(url, id).len() <= u32::MAX
        }
    }
}

/// How the relay URL has to change to become the endpoint.
#[derive(Debug, Clone)]
pub struct EndpointPlan {
    pub scheme: String,
    pub path: String,
}

/// Tests a target device id.
pub fn is_valid_target(id: &str) -> (r: bool)
    ensures
        r == valid_target(id@),
{
    let len: usize = id.unicode_len();
    if len == 0 || len > MAX_TARGET_DEVICE_ID_LEN || same_text(id, ".") || same_text(id, "..") {
        return false;
    }
    let mut i: usize = 0;
    while i < len
        invariant
            i <= len,
            len == id@.len(),
            forall|k: int| 0 <= k < i ==> target_char(#[trigger] id@[k]),
        decreases len - i,
    {
        let c: char = id.get_char(i);
        let allowed: bool = ('0' <= c && c <= '9') || ('A' <= c && c <= 'Z') || ('a' <= c && c
            <= 'z') || c == '-' || c == '_' || c == '.';
        if !allowed {
            assert(!target_char(id@[i as int]));
            return false;
        }
        i = i + 1;
    }
    true
}

/// The HTTP scheme that goes with a WebSocket scheme.
fn http_scheme_of(scheme: &str) -> (r: Option<&'static str>)
    ensures
        r is Some == (relay_url::http_scheme(scheme@) is Some),
        r matches Some(http) ==> http@ == relay_url::http_scheme(scheme@)->0,
{
    if same_text(scheme, "wss") {
        Some("https")
    } else if same_text(scheme, "ws") {
        Some("http")
    } else {
        None
    }
}

/// The part of a relay WebSocket path in front of its `/ws`, if it ends so.
fn strip_socket_suffix(path: &str) -> (r: Option<&str>)
    ensures
        r is Some == is_socket_path(path@),
        r matches Some(base) ==> base@ == base_path(path@),
{
    let len: usize = path.unicode_len();
    if len < 3 {
        return None;
    }
    if same_text(path.substring_char(len - 3, len), "/ws") {
        Some(path.substring_char(0, len - 3))
    } else {
        None
    }
}

/// The HTTP scheme that goes with a relay URL, unless its scheme or its user
/// refuse it.
pub fn http_origin(url: &UrlParts) -> (r: Result<&'static str, RelayError>)
    ensures
        match origin_refusal(url@) {
            Some(error) => r == Err::<&'static str, RelayError>(error),
            None => r matches Ok(scheme) && scheme@ == relay_url::http_scheme(url@.scheme)->0,
        },
{
    let scheme: &'static str = match http_scheme_of(url.scheme.as_str()) {
        Some(scheme) => scheme,
        None => {
            return Err(RelayError::InvalidScheme);
        },
    };
    if !url.username.as_str().is_empty() || url.password.is_some() {
        return Err(RelayError::InvalidEndpoint);
    }
    Ok(scheme)
}

/// Decides from the parts of the relay URL, and from whether anything follows its
/// path, whether it offers an endpoint for the target and how it has to change to
/// become that endpoint.
pub fn plan_endpoint(url: &UrlParts, has_tail: bool, target_device_id: &str) -> (r: Result<
    EndpointPlan,
    RelayError,
>)
    ensures
        match refusal(url@, has_tail) {
            Some(error) => r == Err::<EndpointPlan, RelayError>(error),
            None => r matches Ok(plan) && plan.scheme@ == relay_url::http_scheme(
                url@.scheme,
            )->0 && plan.path@ == message_path(base_path(url@.path), target_device_id@),
        },
{
    let scheme: &'static str = match http_origin(url) {
        Ok(scheme) => scheme,
        Err(error) => {
            return Err(error);
        },
    };
    if has_tail {
        return Err(RelayError::InvalidEndpoint);
    }
    match strip_socket_suffix(url.path.as_str()) {
        None => Err(RelayError::InvalidPath),
        Some(base) => {
            let head: String = join3(base, "/api/devices/", target_device_id);
            let path: String = head.concat("/messages");
            Ok(EndpointPlan { scheme: scheme.to_string(), path })
        },
    }
}

/// The endpoint that takes messages for a device, derived from the relay
/// WebSocket URL.
pub fn device_message_endpoint(ws_url: &str, target_device_id: &str) -> (r: Result<
    String,
    RelayError,
>)
    requires
        endpoint_fits(ws_url@, target_device_id@),
    ensures
        endpoint_outcome(relay_url::url_parsed(ws_url@), target_device_id@, r),
{
    if !is_valid_target(target_device_id) {
        return Err(RelayError::InvalidTarget);
    }
    let url: UrlParts = match parse_url(ws_url) {
        Ok(url) => url,
        Err(reason) => {
            return Err(RelayError::InvalidUrl { reason });
        },
    };
    let has_tail: bool = http_origin(&url).is_ok() && reads_tail(ws_url);
    let plan: EndpointPlan = match plan_endpoint(&url, has_tail, target_device_id) {
        Ok(plan) => plan,
        Err(error) => {
            return Err(error);
        },
    };
    proof {
        law_message_path_is_kept(url@.path, target_device_id@);
        lemma_endpoint_text(url@, target_device_id@);
    }
    match rewrite_url(ws_url, plan.scheme.as_str(), plan.path.as_str()) {
        None => Err(RelayError::InvalidHttpScheme),
        Some(endpoint) => Ok(endpoint),
    }
}

/// Tests whether the URL type's offsets reach over what follows the path of the
/// relay URL and over the endpoint.
fn do_offsets_fit(ws_url: &str, url: &UrlParts, target_device_id: &str) -> (r: bool)
    requires
        relay_url::countable(ws_url@),
        relay_url::url_parsed(ws_url@) == Ok::<UrlView, Seq<char>>(url@),
        url@.is_web_socket() ==> url@.laid_out(),
        valid_target(target_device_id@),
    ensures
        r == endpoint_fits(ws_url@, target_device_id@),
{
    if http_origin(url).is_err() {
        return true;
    }
    if !does_tail_fit(url) {
        return false;
    }
    if plan_endpoint(url, reads_tail(ws_url), target_device_id).is_err() {
        return true;
    }
    proof {
        lemma_endpoint_text(url@, target_device_id@);
    }
    let len: u64 = url.href.as_str().unicode_len() as u64;
    let room: u64 = u32::MAX as u64 - 21 - target_device_id.unicode_len() as u64;
    len <= room
}

/// `device_message_endpoint` where the relay URL and the endpoint fit the URL
/// parser and type, and `None` where they do not.
pub fn checked_device_message_endpoint(ws_url: &str, target_device_id: &str) -> (r: Option<
    Result<String, RelayError>,
>)
    ensures
        r is Some == endpoint_fits(ws_url@, target_device_id@),
        r matches Some(outcome) ==> endpoint_outcome(
            relay_url::url_parsed(ws_url@),
            target_device_id@,
            outcome,
        ),
{
    if is_valid_target(target_device_id) {
        if !is_countable(ws_url) {
            return None;
        }
        if let Ok(url) = parse_url(ws_url) {
            if !do_offsets_fit(ws_url, &url, target_device_id) {
                return None;
            }
        }
    }
    Some(device_message_endpoint(ws_url, target_device_id))
}

/// A valid target stands as one path segment: it holds nothing that ends a
/// segment, starts a query or a fragment or is decoded, and it is not resolved
/// as a dot segment.
pub proof fn law_target_is_one_segment(id: Seq<char>)
    requires
        valid_target(id),
    ensures
        forall|i: int| 0 <= i < id.len() ==> #[trigger] id[i] != '/' && id[i] != '\\' && id[i]
            != '?' && id[i] != '#' && id[i] != '%',
        !relay_url::dot_segment(id),
{
    assert forall|i: int| 0 <= i < id.len() implies #[trigger] id[i] != '/' && id[i] != '\\'
        && id[i] != '?' && id[i] != '#' && id[i] != '%' by {
        assert(target_char(id[i]));
    }
    lemma_target_is_no_dot_segment(id);
}

/// Two targets never share an endpoint of one relay.
pub proof fn law_endpoints_are_distinct(url: UrlView, a: Seq<char>, b: Seq<char>)
    requires
        endpoint_text(url, a) == endpoint_text(url, b),
    ensures
        a == b,
{
    let head = relay_url::http_scheme(url.scheme)->0 + url.href.subrange(
        url.scheme.len() as int,
        url.href.len() - 3,
    ) + "/api/devices/"@;
    let x = endpoint_text(url, a);
    let y = endpoint_text(url, b);
    assert(x.len() == head.len() + a.len() + "/messages"@.len());
    assert(y.len() == head.len() + b.len() + "/messages"@.len());
    assert(x.subrange(head.len() as int, (head.len() + a.len()) as int) =~= a);
    assert(y.subrange(head.len() as int, (head.len() + b.len()) as int) =~= b);
}

/// Changing scheme and path of a relay URL gives its endpoint.
proof fn lemma_endpoint_text(url: UrlView, id: Seq<char>)
    requires
        url.laid_out(),
        url.is_web_socket(),
        !url.has_tail(),
        is_socket_path(url.path),
    ensures
        url.with_scheme(relay_url::http_scheme(url.scheme)->0).href_with_path(
            message_path(base_path(url.path), id),
        ) == endpoint_text(url, id),
        endpoint_text(url, id).len() == url.href.len() + id.len() + 21,
        url.with_scheme(relay_url::http_scheme(url.scheme)->0).href.len() == url.href.len() + 2,
{
    reveal_strlit("ws");
    reveal_strlit("wss");
    reveal_strlit("http");
    reveal_strlit("https");
    reveal_strlit("/api/devices/");
    reveal_strlit("/messages");
    relay_url::lemma_no_tail(url);
    let http = relay_url::http_scheme(url.scheme)->0;
    let changed = url.with_scheme(http);
    let n = url.href.len() as int;
    let p = url.path.len() as int;
    let k = url.scheme.len() as int;
    assert(changed.href.subrange(0, changed.href.len() - p) =~= http + url.href.subrange(k, n - p));
    assert(base_path(url.path) =~= url.href.subrange(n - p, n - 3)) by {
        assert forall|i: int| 0 <= i < p - 3 implies url.path[i] == url.href[n - p + i] by {
            assert(url.href.subrange(n - p, n)[i] == url.href[n - p + i]);
        }
    }
    assert(url.href.subrange(k, n - p) + url.href.subrange(n - p, n - 3) =~= url.href.subrange(
        k,
        n - 3,
    ));
    assert(changed.href_with_path(message_path(base_path(url.path), id)) =~= endpoint_text(url, id));
}

/// A dot segment holds no slash.
proof fn lemma_dot_segment_has_no_slash(s: Seq<char>, i: int)
    requires
        0 <= i < s.len(),
        s[i] == '/',
    ensures
        !relay_url::dot_segment(s),
{
    assert(!relay_url::dot(s));
    assert forall|k: int|
        0 <= k <= s.len() && relay_url::dot(
            s.subrange(0, k),
        ) implies !#[trigger] relay_url::dot(s.subrange(k, s.len() as int)) by {
        if i < k {
            assert(s.subrange(0, k)[i] == '/');
        } else {
            assert(s.subrange(k, s.len() as int)[i - k] == '/');
        }
    }
}

/// A dot segment that is not made of plain dots holds a percent sign, so a
/// valid target device id is none.
proof fn lemma_target_is_no_dot_segment(id: Seq<char>)
    requires
        valid_target(id),
    ensures
        !relay_url::dot_segment(id),
{
    reveal_strlit(".");
    reveal_strlit("..");
    if relay_url::dot(id) {
        if id.len() == 1 {
            assert(id =~= "."@);
        } else {
            assert(id[0] == '%');
            assert(!target_char(id[0]));
        }
    }
    assert forall|k: int|
        0 <= k <= id.len() && relay_url::dot(
            id.subrange(0, k),
        ) implies !#[trigger] relay_url::dot(id.subrange(k, id.len() as int)) by {
        let head = id.subrange(0, k);
        let tail = id.subrange(k, id.len() as int);
        if relay_url::dot(tail) {
            if head.len() != 1 {
                assert(head[0] == '%');
                assert(id[0] == '%');
                assert(!target_char(id[0]));
            } else if tail.len() != 1 {
                assert(tail[0] == '%');
                assert(id[k] == '%');
                assert(!target_char(id[k]));
            } else {
                assert(id[0] == head[0] && id[1] == tail[0]);
                assert(id =~= ".."@);
            }
        }
    }
}

/// Beside a relay WebSocket path, the message path of a valid target is again
/// one that a URL keeps as it is: nothing in it is encoded or resolved.
pub proof fn law_message_path_is_kept(path: Seq<char>, id: Seq<char>)
    requires
        relay_url::normal_path(path),
        is_socket_path(path),
        valid_target(id),
    ensures
        relay_url::normal_path(message_path(base_path(path), id)),
{
    reveal_strlit("/ws");
    reveal_strlit("/api/devices/");
    reveal_strlit("/messages");
    let base = base_path(path);
    let n = base.len() as int;
    let full = message_path(base, id);
    let m = n + 13 + id.len();
    assert(full.len() == m + 9);
    assert(path.subrange(n, n + 3)[0] == '/');
    assert(path[n] == '/');
    assert(full[n] == '/');
    assert(full[n + 4] == '/');
    assert(full[n + 12] == '/');
    assert(full[m] == '/');
    assert forall|i: int| 0 <= i < full.len() implies relay_url::path_char(
        #[trigger] full[i],
    ) by {
        if i < n {
            assert(full[i] == path[i]);
        } else if i < n + 13 {
            assert(full[i] == "/api/devices/"@[i - n]);
        } else if i < m {
            assert(full[i] == id[i - n - 13]);
            assert(target_char(id[i - n - 13]));
        } else {
            assert(full[i] == "/messages"@[i - m]);
        }
    }
    assert(n > 0 ==> full[0] == path[0]);
    assert forall|i: int, j: int|
        0 <= i < j <= full.len() && full[i] == '/' && (j == full.len() || full[j]
            == '/') implies !relay_url::dot_segment(#[trigger] full.subrange(i + 1, j)) by {
        let segment = full.subrange(i + 1, j);
        if j <= n {
            assert(segment =~= path.subrange(i + 1, j));
            assert(full[i] == path[i]);
            assert(j < n ==> full[j] == path[j]);
        } else if i < n {
            assert(segment[n - i - 1] == '/');
            lemma_dot_segment_has_no_slash(segment, n - i - 1);
        } else if i < n + 4 {
            assert(i == n) by {
                assert(full[i] == "/api/devices/"@[i - n]);
            }
            if j > n + 4 {
                assert(segment[3] == '/');
                lemma_dot_segment_has_no_slash(segment, 3);
            } else {
                assert(j == n + 4) by {
                    assert(full[j] == "/api/devices/"@[j - n]);
                }
                assert(segment[0] == 'a');
                lemma_not_dot_start(segment);
            }
        } else if i < n + 12 {
            assert(i == n + 4) by {
                assert(full[i] == "/api/devices/"@[i - n]);
            }
            if j > n + 12 {
                assert(segment[7] == '/');
                lemma_dot_segment_has_no_slash(segment, 7);
            } else {
                assert(j == n + 12) by {
                    assert(full[j] == "/api/devices/"@[j - n]);
                }
                assert(segment[0] == 'd');
                lemma_not_dot_start(segment);
            }
        } else if i < m {
            if i > n + 12 {
                assert(full[i] == id[i - n - 13]);
                assert(target_char(id[i - n - 13]));
            }
            if j > m {
                assert(segment[m - i - 1] == '/');
                lemma_dot_segment_has_no_slash(segment, m - i - 1);
            } else {
                if j < m {
                    assert(full[j] == id[j - n - 13]);
                    assert(target_char(id[j - n - 13]));
                }
                assert(segment =~= id);
                lemma_target_is_no_dot_segment(id);
            }
        } else {
            assert(full[i] == "/messages"@[i - m]);
            assert(i == m);
            if j < full.len() {
                assert(full[j] == "/messages"@[j - m]);
            }
            assert(segment[0] == 'm');
            lemma_not_dot_start(segment);
        }
    }
}

/// A segment that starts with neither a dot nor a percent sign is no dot segment.
proof fn lemma_not_dot_start(s: Seq<char>)
    requires
        s.len() > 0,
        s[0] != '.',
        s[0] != '%',
    ensures
        !relay_url::dot_segment(s),
{
    assert forall|k: int| 0 <= k <= s.len() implies !relay_url::dot(
        #[trigger] s.subrange(0, k),
    ) by {
        let head = s.subrange(0, k);
        if k > 0 {
            assert(head[0] == s[0]);
        }
    }
    assert(s.subrange(0, s.len() as int) =~= s);
}

} // verus!
