use biscuit_auth::{Biscuit, KeyPair};
use webshot::auth::{Auth, Operation};
use webshot::error::{AppError, Denial, Rejection};
use webshot::job::{Action, JobKind, Stage};
use webshot::v1::{
    capture, capture_url, check_capture_url, render, CaptureRequest, Device, RenderRequest, Target,
    UrlParts, Viewport,
};

fn device(headers: bool) -> Device {
    Device {
        viewport: Viewport { width: 1200, height: 600 },
        extra_http_headers: if headers {
            Some(vec![("X-Test".to_string(), "1".to_string())])
        } else {
            None
        },
    }
}

fn bearer_for(keypair: &KeyPair, code: &str) -> Vec<u8> {
    let token = Biscuit::builder().code(code).unwrap().build(keypair).unwrap().to_base64().unwrap();
    format!("Bearer {}", token).into_bytes()
}

#[test]
fn capture_url_accepts_http_and_https() {
    let c = capture_url("https://example.com").unwrap();
    assert_eq!(c.url, "https://example.com/");
    assert_eq!(c.hostname, "example.com");
    let c = capture_url("http://sub.example.org:8080/a?b=c").unwrap();
    assert_eq!(c.url, "http://sub.example.org:8080/a?b=c");
    assert_eq!(c.hostname, "sub.example.org");
}

#[test]
fn capture_url_refuses_other_schemes() {
    assert_eq!(capture_url("ftp://example.com/x").err(), Some(AppError::BadRequest(Rejection::InvalidUrlScheme)));
    assert_eq!(capture_url("file:///etc/passwd").err(), Some(AppError::BadRequest(Rejection::InvalidUrlScheme)));
    assert_eq!(capture_url("data:text/html,hi").err(), Some(AppError::BadRequest(Rejection::InvalidUrlScheme)));
}

#[test]
fn capture_url_refuses_non_urls() {
    assert_eq!(capture_url("not a url").err(), Some(AppError::BadRequest(Rejection::InvalidUrl)));
    assert_eq!(capture_url("http://").err(), Some(AppError::BadRequest(Rejection::InvalidUrl)));
}

#[test]
fn check_capture_url_needs_a_host() {
    let no_host = UrlParts { serialization: "http:x".to_string(), scheme: "http".to_string(), host: None };
    assert_eq!(check_capture_url(Some(no_host)).err(), Some(AppError::BadRequest(Rejection::BadUrl)));
    let empty = UrlParts { serialization: "https://".to_string(), scheme: "https".to_string(), host: Some(String::new()) };
    assert_eq!(check_capture_url(Some(empty)).err(), Some(AppError::BadRequest(Rejection::BadUrl)));
    let ws = UrlParts { serialization: "ws://a/".to_string(), scheme: "ws".to_string(), host: Some("a".to_string()) };
    assert_eq!(check_capture_url(Some(ws)).err(), Some(AppError::BadRequest(Rejection::InvalidUrlScheme)));
    assert_eq!(check_capture_url(None).err(), Some(AppError::BadRequest(Rejection::InvalidUrl)));
}

#[test]
fn target_duplicate_is_equal() {
    let t = Target::Element { locator: "div.main".to_string() };
    match t.duplicate() {
        Target::Element { locator } => assert_eq!(locator, "div.main"),
        other => panic!("unexpected {:?}", other),
    }
    assert!(matches!(Target::Page.duplicate(), Target::Page));
}

#[test]
fn render_starts_an_authorized_job() {
    let keypair = KeyPair::new();
    let auth = Auth { public_key: keypair.public().print() };
    let header = bearer_for(&keypair, "user(\"nobody\");");
    let req = RenderRequest { device: device(true), input: "<h1 style='color:red;'>Hello World".to_string() };
    let started = render(Some(&header), &auth, 1_700_000_000, req).unwrap();
    assert_eq!(started.grant.user(), "nobody");
    assert!(matches!(started.operation, Operation::Render));
    assert!(matches!(started.action, Action::CreateContext));
    assert_eq!(started.job.kind, JobKind::Render);
    assert_eq!(started.job.stage, Stage::CreatingContext);
    assert_eq!(started.job.extra_headers, Some(vec![("X-Test".to_string(), "1".to_string())]));
    assert_eq!(started.job.viewport, Viewport { width: 1200, height: 600 });
    assert_eq!(started.job.input, "<h1 style='color:red;'>Hello World");
}

#[test]
fn render_without_header_is_unauthorized() {
    let keypair = KeyPair::new();
    let auth = Auth { public_key: keypair.public().print() };
    let req = RenderRequest { device: device(false), input: "x".to_string() };
    assert_eq!(render(None, &auth, 0, req).err().map(|e| e.error()), Some(AppError::Unauthorized(Denial::Unauthorized)));
}

#[test]
fn capture_starts_an_authorized_job() {
    let keypair = KeyPair::new();
    let auth = Auth { public_key: keypair.public().print() };
    let header = bearer_for(&keypair, "user(\"nobody\");");
    let req = CaptureRequest {
        device: device(false),
        input: "https://example.com".to_string(),
        target: Target::Viewport,
    };
    let started = capture(Some(&header), &auth, 1_700_000_000, req).unwrap();
    assert_eq!(started.grant.user(), "nobody");
    match &started.operation {
        Operation::Capture { hostname } => assert_eq!(hostname, "example.com"),
        _ => panic!("not a capture"),
    }
    assert_eq!(started.job.kind, JobKind::Capture);
    assert_eq!(started.job.input, "https://example.com/");
    assert!(started.job.extra_headers.is_none());
}

#[test]
fn capture_checks_the_url_after_the_token() {
    let keypair = KeyPair::new();
    let auth = Auth { public_key: keypair.public().print() };
    let header = bearer_for(&keypair, "user(\"nobody\");");
    let bad = CaptureRequest { device: device(false), input: "ftp://example.com".to_string(), target: Target::Page };
    assert_eq!(capture(Some(&header), &auth, 0, bad).err().map(|e| e.error()), Some(AppError::BadRequest(Rejection::InvalidUrlScheme)));
    let bad = CaptureRequest { device: device(false), input: "ftp://example.com".to_string(), target: Target::Page };
    assert_eq!(capture(None, &auth, 0, bad).err().map(|e| e.error()), Some(AppError::Unauthorized(Denial::Unauthorized)));
}

#[test]
fn capture_authorization_sees_the_host() {
    let keypair = KeyPair::new();
    let auth = Auth { public_key: keypair.public().print() };
    let header = bearer_for(&keypair, "user(\"nobody\"); check if hostname(\"example.com\");");
    let ok = CaptureRequest { device: device(false), input: "https://example.com/a".to_string(), target: Target::Page };
    assert!(capture(Some(&header), &auth, 0, ok).is_ok());
    let other = CaptureRequest { device: device(false), input: "https://example.net/a".to_string(), target: Target::Page };
    assert_eq!(capture(Some(&header), &auth, 0, other).err().map(|e| e.error()), Some(AppError::Unauthorized(Denial::Unauthorized)));
}

#[test]
fn render_refuses_a_token_checked_for_capture() {
    let keypair = KeyPair::new();
    let auth = Auth { public_key: keypair.public().print() };
    let header = bearer_for(&keypair, "user(\"alice\"); check if operation(\"capture\");");
    let req = RenderRequest { device: device(false), input: "x".to_string() };
    assert_eq!(render(Some(&header), &auth, 0, req).err().map(|e| e.error()), Some(AppError::Unauthorized(Denial::Unauthorized)));
}

#[test]
fn render_refuses_a_token_without_user() {
    let keypair = KeyPair::new();
    let auth = Auth { public_key: keypair.public().print() };
    let header = bearer_for(&keypair, "role(\"admin\");");
    let req = RenderRequest { device: device(false), input: "x".to_string() };
    assert_eq!(render(Some(&header), &auth, 0, req).err().map(|e| e.error()), Some(AppError::Unauthorized(Denial::Unauthorized)));
}

#[test]
fn capture_host_fact_ignores_port_and_path() {
    let keypair = KeyPair::new();
    let auth = Auth { public_key: keypair.public().print() };
    let header = bearer_for(&keypair, "user(\"alice\"); check if hostname(\"example.com\");");
    let req = CaptureRequest { device: device(false), input: "https://example.com:8443/a".to_string(), target: Target::Page };
    assert!(capture(Some(&header), &auth, 0, req).is_ok());
}
