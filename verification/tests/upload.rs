use filesvc_rs::http::{
    parse_upload_body, upload_query_params, upload_status_check, upload_url, Upload, UploadError,
    UploadMethod, UploadProtocol,
};

fn pairs(params: &[(String, String)]) -> Vec<(&str, &str)> {
    params.iter().map(|p| (p.0.as_str(), p.1.as_str())).collect()
}

#[test]
fn upload_body_parses_to_both_urls() {
    let body = "Header\nhttp://x/a [Admin]\nhttp://x/d [Download]".to_string();
    let parsed = parse_upload_body(body).unwrap();
    assert_eq!(parsed.0, "http://x/a");
    assert_eq!(parsed.1, "http://x/d");
}

#[test]
fn upload_body_with_crlf_lines_parses() {
    let body = "Header\r\nhttp://x/a [Admin]\r\nhttp://x/d [Download]".to_string();
    let parsed = parse_upload_body(body).unwrap();
    assert_eq!(parsed.0, "http://x/a");
    assert_eq!(parsed.1, "http://x/d");
}

#[test]
fn upload_body_missing_admin_marker_is_malformed() {
    let body = "Header\nhttp://x/a\nhttp://x/d [Download]".to_string();
    let err = parse_upload_body(body.clone()).unwrap_err();
    assert_eq!(err, UploadError::MalformedResponse(body));
}

#[test]
fn upload_body_missing_download_marker_is_malformed() {
    let body = "Header\nhttp://x/a [Admin]\nhttp://x/d".to_string();
    let err = parse_upload_body(body.clone()).unwrap_err();
    assert_eq!(err, UploadError::MalformedResponse(body));
}

#[test]
fn upload_body_with_markers_on_wrong_lines_is_malformed() {
    let body = "http://x/a [Admin]\nhttp://x/d [Download]".to_string();
    let err = parse_upload_body(body.clone()).unwrap_err();
    assert_eq!(err, UploadError::MalformedResponse(body));
}

#[test]
fn upload_body_with_too_few_lines_is_malformed() {
    let body = "Header\nhttp://x/a [Admin] [Download]".to_string();
    let err = parse_upload_body(body.clone()).unwrap_err();
    assert_eq!(err, UploadError::MalformedResponse(body));
}

#[test]
fn empty_upload_body_is_malformed() {
    let body = String::new();
    let err = parse_upload_body(body).unwrap_err();
    assert_eq!(err, UploadError::MalformedResponse(String::new()));
}

#[test]
fn upload_status_codes() {
    assert!(upload_status_check(200).is_ok());
    assert_eq!(upload_status_check(413), Err(UploadError::PayloadTooLarge));
    assert_eq!(
        upload_status_check(500),
        Err(UploadError::UnknownStatusCode(500))
    );
    assert_eq!(
        upload_status_check(404),
        Err(UploadError::UnknownStatusCode(404))
    );
}

#[test]
fn default_upload_has_no_query_params() {
    let upload = Upload::default();
    let params = upload_query_params(&upload);
    assert!(params.is_empty());
    assert_eq!(upload.protocol, UploadProtocol::Https);
}

#[test]
fn builder_with_no_settings_builds_the_default() {
    let upload = Upload::builder().build();
    assert_eq!(upload, Upload::default());
}

#[test]
fn query_params_hold_exactly_the_set_fields() {
    let upload = Upload::builder()
        .filename("a.txt".to_string())
        .randomizefn(true)
        .expire(125)
        .autodestroy(false)
        .shorturl(true)
        .build();
    let params = upload_query_params(&upload);
    assert_eq!(
        pairs(&params),
        vec![
            ("filename", "a.txt"),
            ("randomizefn", "1"),
            ("expire", "2"),
            ("autodestroy", "0"),
            ("shorturl", "1"),
        ]
    );
}

#[test]
fn unset_fields_are_omitted_from_query_params() {
    let upload = Upload::builder().expire(3600).shorturl(false).build();
    let params = upload_query_params(&upload);
    assert_eq!(pairs(&params), vec![("expire", "60"), ("shorturl", "0")]);
}

#[test]
fn expire_seconds_truncate_to_whole_minutes() {
    let upload = Upload::builder().expire(125).build();
    let params = upload_query_params(&upload);
    assert_eq!(pairs(&params), vec![("expire", "2")]);

    let under_a_minute = Upload::builder().expire(59).build();
    assert_eq!(pairs(&upload_query_params(&under_a_minute)), vec![("expire", "0")]);

    let exactly_a_minute = Upload::builder().expire(60).build();
    assert_eq!(pairs(&upload_query_params(&exactly_a_minute)), vec![("expire", "1")]);
}

#[test]
fn upload_url_uses_protocol_and_host() {
    assert_eq!(upload_url(UploadProtocol::Https, "files.vc"), "https://files.vc/");
    assert_eq!(upload_url(UploadProtocol::Http, "example.org"), "http://example.org/");
}

#[test]
fn protocol_renders_as_scheme_prefix() {
    assert_eq!(UploadProtocol::Https.to_string(), "https://");
    assert_eq!(UploadProtocol::Http.to_string(), "http://");
}

#[test]
fn default_method_is_put() {
    assert_eq!(UploadMethod::default(), UploadMethod::Put);
}
