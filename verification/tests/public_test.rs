use yh_extension_manager_v2::digest::{constant_time_eq, hmac_sha256_hex};
use yh_extension_manager_v2::public::{
    bearer_token, forwarded_user_from_claims, is_html_like_path, runtime_target_query,
    runtime_target_segments, safe_join, select_ui_asset, plugin_identity_headers, runtime_target_url,
    sign_identity, verify_identity, forwarded_user_from_token, forwarded_user_from_header, AccessClaims, should_forward_request_header, ui_asset_paths,
    ui_entry_relative_path, ui_requested_relative_path, websocket_scheme,
};

#[test]
fn html_like_paths() {
    assert!(is_html_like_path("index.html"));
    assert!(is_html_like_path("app/page.htm"));
    assert!(!is_html_like_path("app"));
    assert!(!is_html_like_path("style.css"));
    assert!(!is_html_like_path("index.HTML"));
}

#[test]
fn ui_entry_paths() {
    assert_eq!(ui_entry_relative_path(""), "index.html");
    assert_eq!(ui_entry_relative_path("/"), "index.html");
    assert_eq!(ui_entry_relative_path("dist"), "dist/index.html");
    assert_eq!(ui_entry_relative_path("/dist/"), "dist/index.html");
    assert_eq!(ui_entry_relative_path("dist/app.html"), "dist/app.html");
}

#[test]
fn ui_requested_paths() {
    assert_eq!(ui_requested_relative_path("dist", ""), "dist/index.html");
    assert_eq!(ui_requested_relative_path("dist", "/assets/app.js"), "dist/assets/app.js");
    assert_eq!(ui_requested_relative_path("", "assets/app.js"), "assets/app.js");
    assert_eq!(ui_requested_relative_path("dist/app.html", "logo.png"), "logo.png");
}

#[test]
fn ui_assets_are_looked_up_under_the_ui_directory() {
    assert_eq!(
        ui_asset_paths("/pkg", "dist", "a.js"),
        Ok(("/pkg/ui/dist/index.html".to_string(), "/pkg/ui/dist/a.js".to_string()))
    );
    assert_eq!(
        ui_asset_paths("/pkg", "dist", "../../etc/passwd"),
        Err("invalid relative path: dist/../../etc/passwd".to_string())
    );
}

#[test]
fn public_safe_join_refuses_escapes() {
    assert_eq!(safe_join("/base", "a/b"), Ok("/base/a/b".to_string()));
    assert_eq!(safe_join("/base", "/abs"), Err("invalid relative path: /abs".to_string()));
    assert_eq!(safe_join("/base", "a/../b"), Err("invalid relative path: a/../b".to_string()));
    assert_eq!(safe_join("/base", "a..b"), Ok("/base/a..b".to_string()));
}

#[test]
fn hop_by_hop_headers_are_not_forwarded() {
    for name in ["connection", "content-length", "host", "keep-alive", "proxy-authenticate",
        "proxy-authorization", "te", "trailer", "transfer-encoding", "upgrade"] {
        assert!(!should_forward_request_header(name), "{}", name);
    }
    assert!(should_forward_request_header("authorization"));
    assert!(should_forward_request_header("content-type"));
}

#[test]
fn bearer_tokens() {
    assert_eq!(bearer_token("Bearer abc.def", "Bearer "), Some("abc.def".to_string()));
    assert_eq!(bearer_token("Bearer   tok  ", "Bearer "), Some("tok".to_string()));
    assert_eq!(bearer_token("Bearer    ", "Bearer "), None);
    assert_eq!(bearer_token("Basic abc", "Bearer "), None);
}

#[test]
fn only_access_tokens_name_a_user() {
    assert_eq!(
        forwarded_user_from_claims("access", "u-1", 2, "alice"),
        Some(("u-1".to_string(), 2, Some("alice".to_string())))
    );
    assert_eq!(forwarded_user_from_claims("refresh", "u-1", 2, "alice"), None);
}

#[test]
fn websocket_schemes() {
    assert_eq!(websocket_scheme("https"), "wss");
    assert_eq!(websocket_scheme("wss"), "wss");
    assert_eq!(websocket_scheme("http"), "ws");
}

#[test]
fn target_segments_and_query() {
    assert_eq!(runtime_target_segments("api", "/v1//items/"), vec!["api", "v1", "items"]);
    assert_eq!(runtime_target_segments("", "a/b"), vec!["a", "b"]);
    assert_eq!(runtime_target_segments("ws", ""), vec!["ws"]);
    assert_eq!(runtime_target_query(""), None);
    assert_eq!(runtime_target_query("a=1&b=2"), Some("a=1&b=2".to_string()));
}

#[test]
fn ui_serving_is_file_first_with_entry_fallback() {
    let found = select_ui_asset("/pkg/ui/index.html".to_string(), "/pkg/ui/app.js".to_string(), true);
    assert_eq!(found.path, "/pkg/ui/app.js");
    assert_eq!(found.content_type, "text/javascript");
    let missing = select_ui_asset("/pkg/ui/index.html".to_string(), "/pkg/ui/settings".to_string(), false);
    assert_eq!(missing.path, "/pkg/ui/index.html");
    assert_eq!(missing.content_type, "text/html");
    let unknown = select_ui_asset("/pkg/ui/index.html".to_string(), "/pkg/ui/LICENSE".to_string(), true);
    assert_eq!(unknown.content_type, "application/octet-stream");
}

#[test]
fn identity_headers_for_proxied_requests() {
    let secret = [7u8; 32];
    let user = Some(("u-1".to_string(), -3i16, Some("bob".to_string())));
    assert_eq!(
        plugin_identity_headers(&secret, Some("Bearer x"), &user),
        vec![
            ("X-Plugin-Authorization".to_string(), "Bearer x".to_string()),
            ("X-Plugin-User-ID".to_string(), "u-1".to_string()),
            ("X-Plugin-User-Role".to_string(), "-3".to_string()),
            ("X-Plugin-User-Name".to_string(), "bob".to_string()),
            ("X-Plugin-User-Signature".to_string(), hmac_sha256_hex(&secret, "u-1:bob:-3")),
        ]
    );
    assert_eq!(plugin_identity_headers(&secret, Some("   "), &None), vec![]);
    let anonymous_name = Some(("u-2".to_string(), 1i16, None));
    assert_eq!(
        plugin_identity_headers(&secret, None, &anonymous_name),
        vec![
            ("X-Plugin-User-ID".to_string(), "u-2".to_string()),
            ("X-Plugin-User-Role".to_string(), "1".to_string()),
            ("X-Plugin-User-Signature".to_string(), hmac_sha256_hex(&secret, "u-2::1")),
        ]
    );
}

#[test]
fn hmac_matches_the_rfc_example() {
    assert_eq!(
        hmac_sha256_hex(b"Jefe", "what do ya want for nothing?"),
        "5bdcc146bf60754e6a042426089575c75a003f089d2739839dec58b964ec3843"
    );
    let long_key = [0xaau8; 131];
    assert_eq!(
        hmac_sha256_hex(&long_key, "Test Using Larger Than Block-Size Key - Hash Key First"),
        "60e431591ee0b67f0d8a26aacbf5b77f8e0bc6213728c5140546040f0ee37f54"
    );
}

#[test]
fn signed_identities_verify_and_forged_ones_do_not() {
    let secret = [9u8; 32];
    let sig = sign_identity(&secret, "u-1", "2", Some("amy"));
    assert_eq!(
        verify_identity(&secret, Some("u-1"), Some("2"), Some("amy"), Some(&sig)),
        Some(("u-1".to_string(), "2".to_string(), Some("amy".to_string())))
    );
    assert_eq!(verify_identity(&secret, Some("u-1"), Some("1"), Some("amy"), Some(&sig)), None);
    assert_eq!(verify_identity(&[1u8; 32], Some("u-1"), Some("2"), Some("amy"), Some(&sig)), None);
    assert_eq!(verify_identity(&secret, Some("u-1"), Some("2"), Some("amy"), None), None);
    assert!(constant_time_eq(b"abc", b"abc"));
    assert!(!constant_time_eq(b"abc", b"abd"));
    assert!(!constant_time_eq(b"abc", b"ab"));
}

#[test]
fn runtime_target_urls() {
    assert_eq!(
        runtime_target_url("http://127.0.0.1:9000/", "api", "a//b", "x=1", false),
        Ok("http://127.0.0.1:9000/api/a/b?x=1".to_string())
    );
    assert_eq!(
        runtime_target_url("https://h.example/base/", "ws", "chat", "", true),
        Ok("wss://h.example/base/ws/chat".to_string())
    );
    assert!(runtime_target_url("not a url", "api", "", "", false)
        .unwrap_err()
        .starts_with("invalid plugin base url: "));
    assert_eq!(
        runtime_target_url("mailto:x@y", "api", "", "", false),
        Err("plugin base url cannot be a base for routing: mailto:x@y".to_string())
    );
}

#[test]
fn users_come_only_from_access_tokens() {
    let claims = |typ: &str| AccessClaims {
        typ: typ.to_string(),
        sub: "u-9".to_string(),
        role_id: 4,
        username: "kim".to_string(),
    };
    assert_eq!(
        forwarded_user_from_token(Some(claims("access"))),
        Some(("u-9".to_string(), 4, Some("kim".to_string())))
    );
    assert_eq!(forwarded_user_from_token(Some(claims("refresh"))), None);
    assert_eq!(forwarded_user_from_token(None), None);
    assert_eq!(forwarded_user_from_header("Basic abc", "Bearer ", b"k"), None);
    assert_eq!(forwarded_user_from_header("Bearer not-a-jwt", "Bearer ", b"k"), None);
}
