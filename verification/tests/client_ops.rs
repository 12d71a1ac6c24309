use filesvc_rs::{
    default_host, delete_status_result, delete_url, hashsum_status_check, hashsum_url,
    parse_hashsum_body, DeleteFileError, GetHashsumError,
};

#[test]
fn hash_response_parses_to_the_hash() {
    let parsed = parse_hashsum_body("abcd1234 (SHA1)".to_string()).unwrap();
    assert_eq!(parsed, "abcd1234");
}

#[test]
fn hash_response_without_suffix_is_malformed() {
    let body = "abcd1234".to_string();
    let err = parse_hashsum_body(body.clone()).unwrap_err();
    assert_eq!(err, GetHashsumError::MalformedResponse(body));
}

#[test]
fn hash_response_with_marker_not_at_end_is_malformed() {
    let body = "abcd1234 (SHA1) trailing".to_string();
    let err = parse_hashsum_body(body.clone()).unwrap_err();
    assert_eq!(err, GetHashsumError::MalformedResponse(body));
}

#[test]
fn hash_status_codes() {
    assert!(hashsum_status_check(200).is_ok());
    assert_eq!(
        hashsum_status_check(404),
        Err(GetHashsumError::FileDoesNotExist)
    );
    assert_eq!(
        hashsum_status_check(418),
        Err(GetHashsumError::UnknownStatusCode(418))
    );
}

#[test]
fn delete_succeeds_on_200_with_no_value() {
    assert_eq!(delete_status_result(200), Ok(()));
}

#[test]
fn delete_of_a_missing_file_fails() {
    assert_eq!(
        delete_status_result(404),
        Err(DeleteFileError::FileDoesNotExist)
    );
}

#[test]
fn delete_on_other_statuses_reports_the_code() {
    assert_eq!(
        delete_status_result(500),
        Err(DeleteFileError::UnknownStatusCode(500))
    );
    assert_eq!(
        delete_status_result(413),
        Err(DeleteFileError::UnknownStatusCode(413))
    );
}

#[test]
fn operation_urls_are_formatted_from_host_and_file() {
    assert_eq!(hashsum_url("files.vc", "abc"), "https://files.vc/hashsum/abc");
    assert_eq!(delete_url("files.vc", "abc"), "https://files.vc/a/abc");
    assert_eq!(hashsum_url(&default_host(), "f1"), "https://files.vc/hashsum/f1");
}

#[test]
fn default_host_is_the_service_host() {
    assert_eq!(default_host(), "files.vc");
}
