use static_server::config::{Config, TIMEOUT_SECS};
use static_server::http::{
    cache_control_value, content_type_label, encoding_label, ContentType, Encoding, Method,
    Request,
};
use static_server::pipeline::{handle, on_miss, route, MissAction, RoutePlan, ServeEvent};

fn cfg(spa: bool, brotli: bool, gzip: bool) -> Config {
    Config::new(".".to_string(), spa, brotli, gzip, 8080)
}

fn get(path: &[u8], accept_encoding: Option<&[u8]>) -> Request {
    Request {
        method: Method::Get,
        path: path.to_vec(),
        accept_encoding: accept_encoding.map(|h| h.to_vec()),
        cors_request_method: false,
    }
}

#[test]
fn existing_file_served_whole() {
    let c = cfg(false, false, false);
    let body = b"<html>hi</html>".to_vec();
    let r = handle(&c, &get(b"/index.html", None), ServeEvent::FileOk { body: body.clone() });
    assert_eq!(r.status, 200);
    assert_eq!(r.body, body);
    assert_eq!(r.content_type, Some(ContentType::Html));
    assert_eq!(r.content_encoding, None);
}

#[test]
fn success_carries_cache_control() {
    let c = cfg(false, false, false);
    let r = handle(&c, &get(b"/a.css", None), ServeEvent::FileOk { body: b"x".to_vec() });
    assert_eq!(r.status, 200);
    assert!(r.cache_control);
    assert_eq!(cache_control_value(), "max-age=600, public");
}

#[test]
fn miss_has_no_cache_control() {
    let c = cfg(false, false, false);
    let r = handle(&c, &get(b"/nope", None), ServeEvent::NotFound);
    assert_eq!(r.status, 404);
    assert!(!r.cache_control);
}

#[test]
fn miss_without_fallback_is_404() {
    let c = cfg(false, false, false);
    assert!(matches!(on_miss(&c), MissAction::Respond404));
    let r = handle(&c, &get(b"/nope.html", None), ServeEvent::NotFound);
    assert_eq!(r.status, 404);
    assert!(r.body.is_empty());
}

#[test]
fn miss_with_fallback_serves_fallback_bytes() {
    let c = cfg(true, false, false);
    assert!(matches!(on_miss(&c), MissAction::ProbeFallback));
    let fallback = b"<html>app shell</html>".to_vec();
    let r = handle(
        &c,
        &get(b"/client/route", None),
        ServeEvent::FallbackOk { body: fallback.clone() },
    );
    assert_eq!(r.status, 200);
    assert_eq!(r.body, fallback);
    assert_eq!(r.content_type, Some(ContentType::Html));
    assert!(r.cache_control);
}

#[test]
fn missing_fallback_is_404() {
    let c = cfg(true, false, false);
    let r = handle(&c, &get(b"/route", None), ServeEvent::FallbackMissing);
    assert_eq!(r.status, 404);
}

#[test]
fn read_error_is_500() {
    let c = cfg(false, false, false);
    let r = handle(&c, &get(b"/a.txt", None), ServeEvent::FileReadError);
    assert_eq!(r.status, 500);
    assert!(!r.cache_control);
    assert!(r.allow_origin);
}

#[test]
fn traversal_resolves_as_miss_whatever_was_probed() {
    let c = cfg(true, true, true);
    let smuggled = b"root file contents".to_vec();
    let r = handle(
        &c,
        &get(b"/../secret.txt", Some(b"br, gzip")),
        ServeEvent::FileOk { body: smuggled },
    );
    assert_eq!(r.status, 404);
    assert!(r.body.is_empty());
    let plan = route(&get(b"/../secret.txt", None));
    assert!(matches!(plan, RoutePlan::BadPath));
}

#[test]
fn brotli_wins_when_both_accepted() {
    let c = cfg(false, true, true);
    let r = handle(
        &c,
        &get(b"/big.js", Some(b"gzip, br")),
        ServeEvent::FileOk { body: b"console.log(1)".to_vec() },
    );
    assert_eq!(r.content_encoding, Some(Encoding::Brotli));
    assert_eq!(encoding_label(&Encoding::Brotli), "br");
}

#[test]
fn gzip_used_when_brotli_not_enabled() {
    let c = cfg(false, false, true);
    let r = handle(
        &c,
        &get(b"/big.js", Some(b"gzip, br")),
        ServeEvent::FileOk { body: b"console.log(1)".to_vec() },
    );
    assert_eq!(r.content_encoding, Some(Encoding::Gzip));
}

#[test]
fn no_encoding_without_client_support() {
    let c = cfg(false, true, true);
    let r = handle(
        &c,
        &get(b"/big.js", Some(b"identity")),
        ServeEvent::FileOk { body: b"console.log(1)".to_vec() },
    );
    assert_eq!(r.content_encoding, None);
}

#[test]
fn empty_body_is_not_encoded() {
    let c = cfg(false, true, true);
    let r = handle(
        &c,
        &get(b"/empty.txt", Some(b"br, gzip")),
        ServeEvent::FileOk { body: Vec::new() },
    );
    assert_eq!(r.status, 200);
    assert_eq!(r.content_encoding, None);
}

#[test]
fn timeout_is_408_with_cors() {
    let c = cfg(false, true, true);
    let r = handle(&c, &get(b"/slow.bin", Some(b"br")), ServeEvent::TimedOut);
    assert_eq!(r.status, 408);
    assert!(r.body.is_empty());
    assert!(!r.cache_control);
    assert!(r.allow_origin);
    assert!(r.allow_headers);
}

#[test]
fn server_keeps_serving_after_a_timeout() {
    let c = cfg(false, false, false);
    let t = handle(&c, &get(b"/slow.bin", None), ServeEvent::TimedOut);
    assert_eq!(t.status, 408);
    let r = handle(
        &c,
        &get(b"/fast.txt", None),
        ServeEvent::FileOk { body: b"ok".to_vec() },
    );
    assert_eq!(r.status, 200);
    assert_eq!(r.body, b"ok".to_vec());
}

#[test]
fn fallback_file_is_named_index_html() {
    assert_eq!(static_server::config::fallback_file_name(), "index.html");
}

#[test]
fn every_outcome_carries_cors_headers() {
    let c = cfg(true, false, false);
    let events = [
        ServeEvent::TimedOut,
        ServeEvent::NoProbe,
        ServeEvent::FileOk { body: b"x".to_vec() },
        ServeEvent::FileReadError,
        ServeEvent::NotFound,
        ServeEvent::FallbackOk { body: b"y".to_vec() },
        ServeEvent::FallbackMissing,
        ServeEvent::FallbackReadError,
    ];
    for ev in events {
        let r = handle(&c, &get(b"/any", None), ev);
        assert!(r.allow_origin);
        assert!(r.allow_headers);
    }
}

#[test]
fn preflight_answered_directly() {
    let c = cfg(false, false, false);
    let req = Request {
        method: Method::Options,
        path: b"/whatever".to_vec(),
        accept_encoding: None,
        cors_request_method: true,
    };
    assert!(matches!(route(&req), RoutePlan::Preflight));
    let r = handle(&c, &req, ServeEvent::NoProbe);
    assert_eq!(r.status, 200);
    assert!(r.body.is_empty());
    assert!(r.allow_origin);
    assert!(r.allow_headers);
}

#[test]
fn plain_options_is_not_preflight() {
    let req = Request {
        method: Method::Options,
        path: b"/a".to_vec(),
        accept_encoding: None,
        cors_request_method: false,
    };
    assert!(matches!(route(&req), RoutePlan::Probe(_)));
}

#[test]
fn route_probes_resolved_segments() {
    let req = get(b"/assets/x.png", None);
    match route(&req) {
        RoutePlan::Probe(segs) => {
            assert_eq!(segs, vec![b"assets".to_vec(), b"x.png".to_vec()]);
        }
        _ => panic!("expected a probe"),
    }
}

#[test]
fn content_types_follow_extension() {
    let c = cfg(false, false, false);
    let cases: [(&[u8], ContentType); 9] = [
        (b"/a.html", ContentType::Html),
        (b"/a.css", ContentType::Css),
        (b"/a.js", ContentType::JavaScript),
        (b"/a.json", ContentType::Json),
        (b"/a.svg", ContentType::Svg),
        (b"/a.wasm", ContentType::Wasm),
        (b"/a.weird", ContentType::OctetStream),
        (b"/A.HTML", ContentType::Html),
        (b"/logo.PNG", ContentType::Png),
    ];
    for (path, want) in cases {
        let r = handle(&c, &get(path, None), ServeEvent::FileOk { body: b"z".to_vec() });
        assert_eq!(r.content_type, Some(want));
    }
    assert_eq!(content_type_label(&ContentType::Html), "text/html");
    assert_eq!(
        content_type_label(&ContentType::OctetStream),
        "application/octet-stream"
    );
}

#[test]
fn config_holds_fixed_timeout() {
    let c = Config::new("/srv/www".to_string(), true, true, false, 3000);
    assert_eq!(c.root, "/srv/www");
    assert!(c.spa);
    assert!(c.brotli);
    assert!(!c.gzip);
    assert_eq!(c.port, 3000);
    assert_eq!(c.timeout_secs, TIMEOUT_SECS);
    assert_eq!(TIMEOUT_SECS, 10);
}
