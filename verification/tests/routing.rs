//! Tests for fragment-path validation and request routing.

use rtsp2hls::router::{
    fragment_content_type, index_content_type, route_fragment, route_request, RouteDecision,
    FRAGMENT_PATH_LEN,
};

fn descriptor_for(path: &[u8]) -> Option<Vec<u8>> {
    route_fragment(path)
}

#[test]
fn wrong_length_paths_are_rejected() {
    // Shorter and longer than the fixed 17-byte grammar, all starting
    // with a slash.
    assert_eq!(descriptor_for(b"/"), None);
    assert_eq!(descriptor_for(b"/live-0000001.ts"), None);
    assert_eq!(descriptor_for(b"/live-000000001.ts"), None);
    assert_eq!(descriptor_for(b"/nonexistent.ts"), None);
    assert_eq!(descriptor_for(b"/index.m3u8"), None);
    assert_eq!(descriptor_for(b""), None);
    assert_eq!(b"/live-00000001.ts".len(), FRAGMENT_PATH_LEN);
}

#[test]
fn all_digit_spans_are_accepted() {
    assert_eq!(
        descriptor_for(b"/live-00000000.ts"),
        Some(b"live-00000000.ts".to_vec())
    );
    assert_eq!(
        descriptor_for(b"/live-99999999.ts"),
        Some(b"live-99999999.ts".to_vec())
    );
    assert_eq!(
        descriptor_for(b"/live-00000005.ts"),
        Some(b"live-00000005.ts".to_vec())
    );
    assert_eq!(
        descriptor_for(b"/live-12345678.ts"),
        Some(b"live-12345678.ts".to_vec())
    );
}

#[test]
fn non_digit_in_span_is_rejected() {
    assert_eq!(descriptor_for(b"/live-0000000a.ts"), None);
    assert_eq!(descriptor_for(b"/live-0000000-.ts"), None);
    assert_eq!(descriptor_for(b"/live-00.00000..ts"), None);
    assert_eq!(descriptor_for(b"/live--0000001.ts"), None);
}

#[test]
fn wrong_prefix_or_suffix_is_rejected() {
    assert_eq!(descriptor_for(b"/xive-00000001.ts"), None);
    assert_eq!(descriptor_for(b"/live-00000001.tx"), None);
    assert_eq!(descriptor_for(b"live-000000001.ts"), None);
    assert_eq!(descriptor_for(b"/live+00000001.ts"), None);
    assert_eq!(descriptor_for(b"/live-00000001_ts"), None);
}

#[test]
fn traversal_shapes_are_rejected() {
    assert_eq!(descriptor_for(b"/../../../etc/.ts"), None);
    assert_eq!(descriptor_for(b"/live-../../00.ts"), None);
}

#[test]
fn get_valid_fragment_is_served() {
    let r = route_request(b"GET", b"/live-00000005.ts");
    match r {
        RouteDecision::ServeFragment(d) => assert_eq!(d, b"live-00000005.ts".to_vec()),
        _ => panic!("expected a fragment decision"),
    }
    assert_eq!(fragment_content_type(), "video/mp2t");
}

#[test]
fn head_valid_fragment_is_served() {
    let r = route_request(b"HEAD", b"/live-00000005.ts");
    assert!(matches!(r, RouteDecision::ServeFragment(_)));
}

#[test]
fn get_malformed_ts_name_is_not_found() {
    assert!(matches!(
        route_request(b"GET", b"/nonexistent.ts"),
        RouteDecision::NotFound
    ));
}

#[test]
fn post_index_is_method_not_allowed() {
    assert!(matches!(
        route_request(b"POST", b"/index.m3u8"),
        RouteDecision::MethodNotAllowed
    ));
}

#[test]
fn other_methods_are_not_allowed() {
    assert!(matches!(
        route_request(b"PUT", b"/live-00000005.ts"),
        RouteDecision::MethodNotAllowed
    ));
    assert!(matches!(
        route_request(b"DELETE", b"/"),
        RouteDecision::MethodNotAllowed
    ));
    assert!(matches!(
        route_request(b"get", b"/"),
        RouteDecision::MethodNotAllowed
    ));
}

#[test]
fn root_redirects_to_index() {
    assert!(matches!(
        route_request(b"GET", b"/"),
        RouteDecision::RedirectToIndex
    ));
    assert!(matches!(
        route_request(b"HEAD", b"/"),
        RouteDecision::RedirectToIndex
    ));
}

#[test]
fn index_is_served() {
    assert!(matches!(
        route_request(b"GET", b"/index.m3u8"),
        RouteDecision::ServeIndex
    ));
    assert_eq!(index_content_type(), "application/vnd.apple.mpegurl");
}

#[test]
fn unknown_paths_are_not_found() {
    assert!(matches!(
        route_request(b"GET", b"/other"),
        RouteDecision::NotFound
    ));
    assert!(matches!(
        route_request(b"GET", b"/index.m3u"),
        RouteDecision::NotFound
    ));
}
