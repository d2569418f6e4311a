use relay_client::endpoint::{
    checked_device_message_endpoint, device_message_endpoint, http_origin, is_valid_target,
    plan_endpoint,
};
use relay_client::error::RelayError;
use relay_client::relay_url::UrlParts;

#[test]
fn device_http_endpoint_preserves_version_prefix_and_rejects_path_injection() {
    assert_eq!(
        device_message_endpoint("wss://remote.example/v/1.0.0/ws", "desktop-1")
            .unwrap()
            .as_str(),
        "https://remote.example/v/1.0.0/api/devices/desktop-1/messages"
    );
    assert_eq!(
        device_message_endpoint("ws://127.0.0.1:3000/ws", "desktop")
            .unwrap()
            .as_str(),
        "http://127.0.0.1:3000/api/devices/desktop/messages"
    );
    for id in [
        "",
        ".",
        "..",
        "../other",
        "device?x=1",
        "%2f",
        "device#fragment",
    ] {
        assert!(device_message_endpoint("wss://remote.example/ws", id).is_err());
    }
    for url in [
        "https://remote.example/ws",
        "wss://user@remote.example/ws",
        "wss://remote.example/ws?token=x",
        "wss://remote.example/wrong",
    ] {
        assert!(device_message_endpoint(url, "desktop").is_err());
    }
}

fn refusal(url: &str, id: &str) -> RelayError {
    device_message_endpoint(url, id).unwrap_err()
}

#[test]
fn each_refusal_has_its_own_error() {
    let ws = "wss://remote.example/ws";
    for id in ["", ".", "..", "a/b", "a b", "%2e", "d\u{e9}vice", "a\\b"] {
        assert_eq!(refusal(ws, id), RelayError::InvalidTarget);
    }
    assert_eq!(
        refusal("remote.example/ws", "desktop"),
        RelayError::InvalidUrl { reason: "relative URL without a base".to_string() }
    );
    assert_eq!(
        refusal("wss://", "desktop"),
        RelayError::InvalidUrl { reason: "empty host".to_string() }
    );
    assert_eq!(refusal("https://remote.example/ws", "desktop"), RelayError::InvalidScheme);
    assert_eq!(refusal("wss://user@remote.example/ws", "desktop"), RelayError::InvalidEndpoint);
    assert_eq!(refusal("wss://:pw@remote.example/ws", "desktop"), RelayError::InvalidEndpoint);
    assert_eq!(refusal("wss://remote.example/ws?", "desktop"), RelayError::InvalidEndpoint);
    assert_eq!(refusal("wss://remote.example/ws#f", "desktop"), RelayError::InvalidEndpoint);
    assert_eq!(refusal("wss://remote.example/wrong", "desktop"), RelayError::InvalidPath);
    assert_eq!(refusal("wss://remote.example", "desktop"), RelayError::InvalidPath);
    assert_eq!(refusal("wss://remote.example/xws", "desktop"), RelayError::InvalidPath);
    assert_eq!(refusal("https://user@remote.example/wrong", ""), RelayError::InvalidTarget);
    assert_eq!(
        refusal("https://user@remote.example/wrong", "desktop"),
        RelayError::InvalidScheme
    );
    assert_eq!(
        refusal("wss://user@remote.example/wrong", "desktop"),
        RelayError::InvalidEndpoint
    );
}

#[test]
fn endpoint_keeps_everything_between_scheme_and_socket_segment() {
    for (url, endpoint) in [
        ("WSS://Remote.Example:443/ws", "https://remote.example/api/devices/d/messages"),
        ("wss://remote.example:80/ws", "https://remote.example:80/api/devices/d/messages"),
        ("ws://remote.example:443/ws", "http://remote.example:443/api/devices/d/messages"),
        ("ws://remote.example:80/ws", "http://remote.example/api/devices/d/messages"),
        ("ws://[::1]:9/a/../b/./ws", "http://[::1]:9/b/api/devices/d/messages"),
        ("ws://h//ws", "http://h//api/devices/d/messages"),
        ("ws://h/a b/%2E%2e/c%2Fd/ws", "http://h/c%2Fd/api/devices/d/messages"),
        ("ws://h/{x}|^`/ws", "http://h/%7Bx%7D|^%60/api/devices/d/messages"),
        ("ws://h\\v\\ws", "http://h/v/api/devices/d/messages"),
        (" ws://h/\u{e9}/ws\n", "http://h/%C3%A9/api/devices/d/messages"),
        ("ws://b\u{fc}cher.example/ws", "http://xn--bcher-kva.example/api/devices/d/messages"),
        ("ws://0x7f.1/c:/../ws", "http://127.0.0.1/c:/api/devices/d/messages"),
    ] {
        assert_eq!(device_message_endpoint(url, "d").unwrap(), endpoint);
    }
}

#[test]
fn a_host_that_outgrows_its_own_parser_is_kept() {
    let label: String = (0..900)
        .map(|i| char::from_u32(0x4e00 + 20 * i).unwrap())
        .collect();
    let ws_url = format!("ws://{label}/ws");
    let mut expected = reqwest::Url::parse(&ws_url).unwrap();
    assert!(reqwest::Url::parse(expected.as_str()).is_err());
    expected.set_scheme("http").unwrap();
    expected.set_path("/api/devices/d/messages");
    assert!(expected.as_str().starts_with("http://xn--"));
    assert_eq!(device_message_endpoint(&ws_url, "d").unwrap(), expected.as_str());
    assert_eq!(
        checked_device_message_endpoint(&ws_url, "d"),
        Some(Ok(expected.as_str().to_string()))
    );
}

#[test]
fn targets_of_dots_and_of_full_length_are_kept() {
    let long = "a".repeat(128);
    for id in ["...", "a.", ".a", "-", "_", "A9", long.as_str()] {
        assert!(is_valid_target(id));
        assert_eq!(
            device_message_endpoint("ws://h/ws", id).unwrap(),
            format!("http://h/api/devices/{id}/messages")
        );
    }
    assert!(!is_valid_target(&"a".repeat(129)));
    assert!(!is_valid_target(&"\u{e9}".repeat(64)));
}

#[test]
fn checked_endpoint_agrees_with_the_endpoint() {
    assert_eq!(
        checked_device_message_endpoint("ws://h/ws", "d"),
        Some(Ok("http://h/api/devices/d/messages".to_string()))
    );
    assert_eq!(
        checked_device_message_endpoint("ws://h/ws", "a/b"),
        Some(Err(RelayError::InvalidTarget))
    );
    assert_eq!(
        checked_device_message_endpoint("http://h/ws", "d"),
        Some(Err(RelayError::InvalidScheme))
    );
}

#[test]
fn distinct_targets_have_distinct_endpoints() {
    let a = device_message_endpoint("ws://h/ws", "one").unwrap();
    let b = device_message_endpoint("ws://h/ws", "two").unwrap();
    assert_ne!(a, b);
}

fn parts(scheme: &str, username: &str, password: Option<&str>, path: &str) -> UrlParts {
    UrlParts {
        href: format!("{scheme}://h{path}"),
        scheme: scheme.to_string(),
        username: username.to_string(),
        password: password.map(|text| text.to_string()),
        path: path.to_string(),
    }
}

#[test]
fn plan_is_made_from_the_parts_alone() {
    let plan = plan_endpoint(&parts("wss", "", None, "/v/ws"), false, "d").unwrap();
    assert_eq!(plan.scheme, "https");
    assert_eq!(plan.path, "/v/api/devices/d/messages");
    for (url, has_tail, error) in [
        (parts("http", "u", None, "/"), true, RelayError::InvalidScheme),
        (parts("ws", "u", None, "/"), false, RelayError::InvalidEndpoint),
        (parts("ws", "", Some(""), "/ws"), false, RelayError::InvalidEndpoint),
        (parts("ws", "", None, "/"), true, RelayError::InvalidEndpoint),
        (parts("ws", "", None, "/"), false, RelayError::InvalidPath),
    ] {
        assert_eq!(plan_endpoint(&url, has_tail, "d").unwrap_err(), error);
    }
}

#[test]
fn origin_is_judged_by_scheme_and_user() {
    assert_eq!(http_origin(&parts("ws", "", None, "/")), Ok("http"));
    assert_eq!(http_origin(&parts("wss", "", None, "/")), Ok("https"));
    assert_eq!(
        http_origin(&parts("ftp", "u", None, "/")),
        Err(RelayError::InvalidScheme)
    );
    assert_eq!(
        http_origin(&parts("wss", "", Some("p"), "/")),
        Err(RelayError::InvalidEndpoint)
    );
}

#[test]
fn what_follows_the_path_is_refused() {
    for url in [
        "ws://h/ws?",
        "ws://h/ws#",
        "ws://h/ws?a#b",
        "ws://h/ws#a?b",
        "ws://h?/ws",
        "ws://h#/ws",
        "ws://h/wrong?",
    ] {
        assert_eq!(
            checked_device_message_endpoint(url, "d"),
            Some(Err(RelayError::InvalidEndpoint))
        );
    }
    assert_eq!(
        checked_device_message_endpoint("ws://h/%3F%23/ws", "d"),
        Some(Ok("http://h/%3F%23/api/devices/d/messages".to_string()))
    );
}

#[test]
fn texts_of_every_form_are_counted_through() {
    for (url, endpoint) in [
        ("ws:h/ws", "http://h/api/devices/d/messages"),
        ("wS:\\\\h\\ws", "http://h/api/devices/d/messages"),
        ("\u{1} w\ts:///\n//h/ws \u{2}\r", "http://h/api/devices/d/messages"),
    ] {
        assert_eq!(
            checked_device_message_endpoint(url, "d"),
            Some(Ok(endpoint.to_string()))
        );
    }
    for url in [
        "mailto:somebody",
        "mailto:",
        "file:///ws",
        "file:ws",
        "FTP://h/ws",
        "HTTPS:\\h/ws",
        "web+demo:/.//ws",
        "web+demo:/ws",
        "web+demo://h/ws",
        "w.s-1://h/ws?x",
        "s:?x",
    ] {
        assert_eq!(
            checked_device_message_endpoint(url, "d"),
            Some(Err(RelayError::InvalidScheme))
        );
    }
    for url in ["", " ", "ws", ":", ":ws", "1s://h/ws", "w s://h/ws", "//h/ws"] {
        assert_eq!(
            checked_device_message_endpoint(url, "d"),
            Some(Err(RelayError::InvalidUrl {
                reason: "relative URL without a base".to_string()
            }))
        );
    }
}
