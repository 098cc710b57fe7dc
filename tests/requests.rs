use iscc_cli::tika::{check, config, detect, get, language, metadata, put_file, text, Method};

#[test]
fn config_keeps_its_values() {
    let c = config("localhost", "9998", true);
    assert_eq!(c.host, "localhost");
    assert_eq!(c.port, "9998");
    assert!(c.active);
}

#[test]
fn liveness_probe() {
    let r = check(&config("tika.local", "1234", true));
    assert_eq!(r.method, Method::Get);
    assert_eq!(r.url, "http://tika.local:1234/tika");
    assert_eq!(r.accept, None);
    assert_eq!(r.upload, None);
}

#[test]
fn detection_extraction_and_language_requests() {
    let c = config("localhost", "9998", true);
    let d = detect(&c, "a.txt");
    assert_eq!(d.method, Method::Put);
    assert_eq!(d.url, "http://localhost:9998/detect/stream");
    assert_eq!(d.accept.as_deref(), Some("text/plain"));
    assert_eq!(d.upload.as_deref(), Some("a.txt"));
    assert_eq!(text(&c, "a.txt").url, "http://localhost:9998/tika");
    assert_eq!(language(&c, "a.txt").url, "http://localhost:9998/language/string");
}

#[test]
fn metadata_request_asks_for_json() {
    let m = metadata(&config("h", "1", true), "f.pdf");
    assert_eq!(m.method, Method::Put);
    assert_eq!(m.url, "http://h:1/meta");
    assert_eq!(m.accept.as_deref(), Some("application/json"));
    assert_eq!(m.upload.as_deref(), Some("f.pdf"));
}

#[test]
fn plain_get_and_put() {
    let g = get("http://x/y");
    assert_eq!((g.method, g.url.as_str()), (Method::Get, "http://x/y"));
    let p = put_file("http://x/z", "file.bin");
    assert_eq!(p.method, Method::Put);
    assert_eq!(p.accept.as_deref(), Some("text/plain"));
    assert_eq!(p.upload.as_deref(), Some("file.bin"));
}
