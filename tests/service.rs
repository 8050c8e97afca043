use rust_backend::config::{
    resolve_path, TlsPaths, DEFAULT_CERT_PATH, DEFAULT_KEY_PATH, FIBONACCI_PATH, HEALTH_PATH,
    LISTEN_PORT, ROOT_PATH,
};
use rust_backend::health::health;
use rust_backend::page::{root_page, SERVICE_TITLE};

#[test]
fn health_answers_ok() {
    let r = health();
    assert_eq!(r.status, "ok");
    assert_eq!(r.message, "Rust backend is running");
}

#[test]
fn health_answers_the_same_each_time() {
    let a = health();
    let b = health();
    assert_eq!(a.status, b.status);
    assert_eq!(a.message, b.message);
}

#[test]
fn root_page_lists_the_endpoints() {
    let page = root_page();
    assert!(page.contains("Rust Backend API"));
    assert!(page.contains("/api/health"));
    assert!(page.contains("/api/compute/fibonacci"));
    assert!(page.contains(SERVICE_TITLE));
    assert!(page.contains("<!DOCTYPE html>"));
    assert!(page.contains("GET /api/compute/fibonacci?n=30"));
    assert!(page.trim_end().ends_with("</html>"));
}

#[test]
fn routes_and_port() {
    assert_eq!(ROOT_PATH, "/");
    assert_eq!(HEALTH_PATH, "/api/health");
    assert_eq!(FIBONACCI_PATH, "/api/compute/fibonacci");
    assert_eq!(LISTEN_PORT, 3000);
}

#[test]
fn tls_paths_fall_back_to_defaults() {
    let p = TlsPaths::from_configured(None, None);
    assert_eq!(p.cert, "/certs/server.crt");
    assert_eq!(p.key, "/certs/server.key");
    assert_eq!(DEFAULT_CERT_PATH, "/certs/server.crt");
    assert_eq!(DEFAULT_KEY_PATH, "/certs/server.key");
}

#[test]
fn tls_paths_take_configured_values() {
    let p = TlsPaths::from_configured(Some("/etc/a.pem".to_string()), None);
    assert_eq!(p.cert, "/etc/a.pem");
    assert_eq!(p.key, "/certs/server.key");
    let p = TlsPaths::from_configured(None, Some("/etc/b.pem".to_string()));
    assert_eq!(p.cert, "/certs/server.crt");
    assert_eq!(p.key, "/etc/b.pem");
    assert_eq!(resolve_path(Some(String::new()), "/d"), "");
    assert_eq!(resolve_path(None, "/d"), "/d");
}
