//! Client-side logic for a file-hosting web service: building the request
//! URLs and query parameters for the upload, hash-lookup and delete
//! operations, and parsing the plain-text responses the service returns.
//! The HTTP transport itself lives outside this library; every function
//! here is pure, from plain values to plain values.

use vstd::prelude::*;
use vstd::string::StrSliceExecFns;
use vstd::string::StringExecFns;

pub mod http;
pub mod text;

use crate::text::chop_end;
use crate::text::contains_str;
use crate::text::ends_with;
use crate::text::has_substring;
use crate::text::str_ends_with;

verus! {

/// The host requests go to when the caller names none.
pub fn default_host() -> (r: String)
    ensures
        r@ == "files.vc"@,
{
    String::from_str("files.vc")
}

/// The URL a hash lookup is issued to for the given host and file
/// identifier.
pub fn hashsum_url(base_uri: &str, file: &str) -> (r: String)
    ensures
        r@ == "https://"@ + base_uri@ + "/hashsum/"@ + file@,
{
    let mut u: String = String::from_str("https://");
    u.append(base_uri);
    u.append("/hashsum/");
    u.append(file);
    proof {
        assert(u@ =~= "https://"@ + base_uri@ + "/hashsum/"@ + file@);
    }
    u
}

/// The URL a delete is issued to for the given host and file identifier.
pub fn delete_url(base_uri: &str, file: &str) -> (r: String)
    ensures
        r@ == "https://"@ + base_uri@ + "/a/"@ + file@,
{
    let mut u: String = String::from_str("https://");
    u.append(base_uri);
    u.append("/a/");
    u.append(file);
    proof {
        assert(u@ =~= "https://"@ + base_uri@ + "/a/"@ + file@);
    }
    u
}

/// Errors of the hash-lookup operation.
#[derive(Debug, Clone, PartialEq, Eq)]
pub enum GetHashsumError {
    /// The server answered with a status this layer does not interpret.
    UnknownStatusCode(u16),
    /// The response body did not have the expected shape; carries the body.
    MalformedResponse(String),
    /// The server answered 404: no file under that identifier.
    FileDoesNotExist,
}

/// Errors of the delete operation.
#[derive(Debug, Clone, PartialEq, Eq)]
pub enum DeleteFileError {
    /// The server answered with a status this layer does not interpret.
    UnknownStatusCode(u16),
    /// The server answered 404: no file under that identifier.
    FileDoesNotExist,
}

/// What a 200 hash-lookup response body yields: the body must contain
/// `"(SHA1)"` and end with `" (SHA1)"`; the text before that suffix is the
/// hash. Any other body yields nothing.
pub open spec fn hashsum_of(body: Seq<char>) -> Option<Seq<char>> {
    if has_substring(body, "(SHA1)"@) && ends_with(body, " (SHA1)"@) {
        Some(body.take(body.len() - " (SHA1)"@.len()))
    } else {
        None
    }
}

/// Interprets the status code of a hash-lookup response: only 200 lets
/// the body be parsed, 404 means the file does not exist, anything else
/// is unknown.
pub fn hashsum_status_check(status: u16) -> (r: Result<(), GetHashsumError>)
    ensures
        status == 200 ==> r is Ok,
        status == 404 ==> r == Result::<(), GetHashsumError>::Err(
            GetHashsumError::FileDoesNotExist,
        ),
        status != 200 && status != 404 ==> r == Result::<(), GetHashsumError>::Err(
            GetHashsumError::UnknownStatusCode(status),
        ),
{
    if status == 200 {
        Ok(())
    } else if status == 404 {
        Err(GetHashsumError::FileDoesNotExist)
    } else {
        Err(GetHashsumError::UnknownStatusCode(status))
    }
}

/// Parses a 200 hash-lookup response body into the hash; a body without
/// the expected suffix is a malformed response, returned whole inside the
/// error.
pub fn parse_hashsum_body(body: String) -> (r: Result<String, GetHashsumError>)
    ensures
        r matches Ok(h) ==> hashsum_of(body@) == Some(h@),
        r matches Err(e) ==> hashsum_of(body@) is None && e == GetHashsumError::MalformedResponse(
            body,
        ),
{
    if !contains_str(body.as_str(), "(SHA1)") {
        return Err(GetHashsumError::MalformedResponse(body));
    }
    if !str_ends_with(body.as_str(), " (SHA1)") {
        return Err(GetHashsumError::MalformedResponse(body));
    }
    let suffix_len: usize = " (SHA1)".unicode_len();
    let hashsum: String = chop_end(body.as_str(), suffix_len);
    Ok(hashsum)
}

/// Interprets the status code of a delete response: 200 is success,
/// 404 means the file does not exist, anything else is unknown.
pub fn delete_status_result(status: u16) -> (r: Result<(), DeleteFileError>)
    ensures
        status == 200 ==> r is Ok,
        status == 404 ==> r == Result::<(), DeleteFileError>::Err(
            DeleteFileError::FileDoesNotExist,
        ),
        status != 200 && status != 404 ==> r == Result::<(), DeleteFileError>::Err(
            DeleteFileError::UnknownStatusCode(status),
        ),
{
    if status == 200 {
        Ok(())
    } else if status == 404 {
        Err(DeleteFileError::FileDoesNotExist)
    } else {
        Err(DeleteFileError::UnknownStatusCode(status))
    }
}

} // verus!
