use fetchquest::options::{Options, RequestMethod};
use fetchquest::request::{
    build_request, select_body, transport_config, BodySource, RedirectPolicy, RequestError,
    MAX_REDIRECTS,
};

#[test]
fn method_verbs() {
    assert_eq!(RequestMethod::Get.as_str(), "GET");
    assert_eq!(RequestMethod::Post.as_str(), "POST");
    assert_eq!(RequestMethod::Put.as_str(), "PUT");
    assert_eq!(RequestMethod::Delete.as_str(), "DELETE");
}

#[test]
fn upload_wins_over_raw_data() {
    for _ in 0..3 {
        let b = select_body(&Some("/tmp/dir/report.bin".to_string()), &Some("raw".to_string()));
        match b {
            Ok(BodySource::Upload { path, file_name }) => {
                assert_eq!(path, "/tmp/dir/report.bin");
                assert_eq!(file_name, "report.bin");
            }
            _ => panic!("expected the upload"),
        }
    }
}

#[test]
fn raw_data_is_sent_verbatim() {
    match select_body(&None, &Some("  {\"a\": 1}\n".to_string())) {
        Ok(BodySource::Raw(d)) => assert_eq!(d, "  {\"a\": 1}\n"),
        _ => panic!("expected raw data"),
    }
}

#[test]
fn no_body_without_sources() {
    assert!(matches!(select_body(&None, &None), Ok(BodySource::Empty)));
}

#[test]
fn upload_path_without_file_name_is_an_error() {
    assert!(matches!(
        select_body(&Some("/".to_string()), &None),
        Err(RequestError::UploadWithoutFileName)
    ));
    assert!(matches!(
        select_body(&Some("dir/..".to_string()), &None),
        Err(RequestError::UploadWithoutFileName)
    ));
}

#[test]
fn transport_defaults() {
    let o = Options::new("http://example.com/".to_string());
    let t = transport_config(&o);
    assert_eq!(t.user_agent, "RustHttpClient/0.1.0");
    assert_eq!(t.redirect, RedirectPolicy::Never);
    assert!(!t.accept_invalid_certs);
}

#[test]
fn transport_follows_redirects_and_skips_verification_when_asked() {
    let mut o = Options::new("https://example.com/".to_string());
    o.user_agent = Some("probe/2".to_string());
    o.follow_redirects = true;
    o.disable_ssl_verification = true;
    let t = transport_config(&o);
    assert_eq!(t.user_agent, "probe/2");
    assert_eq!(t.redirect, RedirectPolicy::Limited(10));
    assert_eq!(MAX_REDIRECTS, 10);
    assert!(t.accept_invalid_certs);
}

#[test]
fn build_request_assembles_everything() {
    let mut o = Options::new("http://example.com/api".to_string());
    o.method = RequestMethod::Put;
    o.cookie = Some("sid=1".to_string());
    o.headers = vec!["X-A: 1".to_string(), "bogus".to_string()];
    o.bearer_token = Some("tok".to_string());
    o.data = Some("payload".to_string());
    let r = build_request(&o).unwrap();
    assert_eq!(r.method, RequestMethod::Put);
    assert_eq!(r.url, "http://example.com/api");
    let got: Vec<(String, String)> =
        r.headers.iter().map(|h| (h.name.clone(), h.value.clone())).collect();
    assert_eq!(
        got,
        vec![
            ("Cookie".to_string(), "sid=1".to_string()),
            ("X-A".to_string(), "1".to_string()),
            ("Authorization".to_string(), "Bearer tok".to_string()),
        ]
    );
    assert!(matches!(r.body, BodySource::Raw(ref d) if d == "payload"));
}

#[test]
fn build_request_fails_on_nameless_upload() {
    let mut o = Options::new("http://example.com/".to_string());
    o.form_file = Some("..".to_string());
    assert!(matches!(build_request(&o), Err(RequestError::UploadWithoutFileName)));
}
