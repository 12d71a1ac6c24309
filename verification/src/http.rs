//! The upload operation: its configuration value object, the request URL
//! and query parameters it determines, and the parsing of the two-line
//! plain-text response body.

use vstd::prelude::*;
use vstd::string::StrSliceExecFns;
use vstd::string::StringExecFns;

use crate::text::contains_str;
use crate::text::dec_digits;
use crate::text::ends_with;
use crate::text::has_substring;
use crate::text::chop_end;
use crate::text::lines_of;
use crate::text::split_lines;
use crate::text::str_ends_with;
use crate::text::u64_to_decimal;

verus! {

/// The scheme the upload request is issued over.
#[derive(Clone, Copy, Debug, PartialEq, Eq, Structural)]
pub enum UploadProtocol {
    Https,
    Http,
}

/// The scheme prefix of an upload URL under the given protocol.
pub open spec fn scheme_of(p: UploadProtocol) -> Seq<char> {
    match p {
        UploadProtocol::Https => "https://"@,
        UploadProtocol::Http => "http://"@,
    }
}

impl UploadProtocol {
    /// The scheme prefix as a string, `"https://"` or `"http://"`.
    pub fn to_string(&self) -> (r: String)
        ensures
            r@ == scheme_of(*self),
    {
        match self {
            UploadProtocol::Https => String::from_str("https://"),
            UploadProtocol::Http => String::from_str("http://"),
        }
    }
}

impl Default for UploadProtocol {
    fn default() -> (r: Self)
        ensures
            r == UploadProtocol::Https,
    {
        UploadProtocol::Https
    }
}

/// The HTTP method an upload could be issued with.
#[derive(Clone, Copy, Debug, PartialEq, Eq, Structural)]
pub enum UploadMethod {
    Put,
    Post,
}

impl Default for UploadMethod {
    fn default() -> (r: Self)
        ensures
            r == UploadMethod::Put,
    {
        UploadMethod::Put
    }
}

/// Errors of the upload operation.
#[derive(Debug, Clone, PartialEq, Eq)]
pub enum UploadError {
    /// The server answered 413: the payload is too large.
    PayloadTooLarge,
    /// The server answered with a status this layer does not interpret.
    UnknownStatusCode(u16),
    /// The response body did not have the expected shape; carries the body.
    MalformedResponse(String),
}

/// Optional parameters of an upload. Every field is independently
/// optional; an unset field adds nothing to the request.
#[derive(Debug, Clone, PartialEq, Eq)]
pub struct Upload {
    /// Scheme of the request URL.
    pub protocol: UploadProtocol,
    /// Name to store the file under.
    pub filename: Option<String>,
    /// Whether the service should pick a random file name.
    pub randomizefn: Option<bool>,
    /// Lifetime of the file, in whole seconds; sent as whole minutes.
    pub expire: Option<u64>,
    /// Whether the file is deleted after its first download.
    pub autodestroy: Option<bool>,
    /// Whether the service should return a shortened download link.
    pub shorturl: Option<bool>,
}

impl Default for Upload {
    fn default() -> (r: Self)
        ensures
            r.protocol == UploadProtocol::Https,
            r.filename is None,
            r.randomizefn is None,
            r.expire is None,
            r.autodestroy is None,
            r.shorturl is None,
    {
        Upload {
            protocol: UploadProtocol::Https,
            filename: None,
            randomizefn: None,
            expire: None,
            autodestroy: None,
            shorturl: None,
        }
    }
}

impl Upload {
    /// A builder with every field unset.
    pub fn builder() -> (r: UploadBuilder)
        ensures
            r.protocol is None,
            r.filename is None,
            r.randomizefn is None,
            r.expire is None,
            r.autodestroy is None,
            r.shorturl is None,
    {
        UploadBuilder {
            protocol: None,
            filename: None,
            randomizefn: None,
            expire: None,
            autodestroy: None,
            shorturl: None,
        }
    }
}

/// Builds an `Upload` out of named optional settings; an unset field
/// falls back to its default.
#[derive(Debug, Clone, PartialEq, Eq)]
pub struct UploadBuilder {
    pub protocol: Option<UploadProtocol>,
    pub filename: Option<String>,
    pub randomizefn: Option<bool>,
    pub expire: Option<u64>,
    pub autodestroy: Option<bool>,
    pub shorturl: Option<bool>,
}

impl UploadBuilder {
    /// Sets the scheme of the request URL.
    pub fn protocol(self, protocol: UploadProtocol) -> (r: Self)
        ensures
            r == (Self { protocol: Some(protocol), ..self }),
    {
        Self { protocol: Some(protocol), ..self }
    }

    /// Sets the name to store the file under.
    pub fn filename(self, filename: String) -> (r: Self)
        ensures
            r == (Self { filename: Some(filename), ..self }),
    {
        Self { filename: Some(filename), ..self }
    }

    /// Sets whether the service should pick a random file name.
    pub fn randomizefn(self, randomizefn: bool) -> (r: Self)
        ensures
            r == (Self { randomizefn: Some(randomizefn), ..self }),
    {
        Self { randomizefn: Some(randomizefn), ..self }
    }

    /// Sets the lifetime of the file, in whole seconds.
    pub fn expire(self, expire: u64) -> (r: Self)
        ensures
            r == (Self { expire: Some(expire), ..self }),
    {
        Self { expire: Some(expire), ..self }
    }

    /// Sets whether the file is deleted after its first download.
    pub fn autodestroy(self, autodestroy: bool) -> (r: Self)
        ensures
            r == (Self { autodestroy: Some(autodestroy), ..self }),
    {
        Self { autodestroy: Some(autodestroy), ..self }
    }

    /// Sets whether the service should return a shortened download link.
    pub fn shorturl(self, shorturl: bool) -> (r: Self)
        ensures
            r == (Self { shorturl: Some(shorturl), ..self }),
    {
        Self { shorturl: Some(shorturl), ..self }
    }

    /// The configuration with every set field kept and every unset field
    /// at its default.
    pub fn build(self) -> (r: Upload)
        ensures
            r.protocol == (match self.protocol {
                Some(p) => p,
                None => UploadProtocol::Https,
            }),
            r.filename == self.filename,
            r.randomizefn == self.randomizefn,
            r.expire == self.expire,
            r.autodestroy == self.autodestroy,
            r.shorturl == self.shorturl,
    {
        let protocol: UploadProtocol = match self.protocol {
            Some(p) => p,
            None => UploadProtocol::Https,
        };
        Upload {
            protocol,
            filename: self.filename,
            randomizefn: self.randomizefn,
            expire: self.expire,
            autodestroy: self.autodestroy,
            shorturl: self.shorturl,
        }
    }
}

/// The URL an upload is issued to: scheme, host, one trailing slash.
pub fn upload_url(protocol: UploadProtocol, base_uri: &str) -> (r: String)
    ensures
        r@ == scheme_of(protocol) + base_uri@ + "/"@,
{
    let mut u: String = protocol.to_string();
    u.append(base_uri);
    u.append("/");
    proof {
        assert(u@ =~= scheme_of(protocol) + base_uri@ + "/"@);
    }
    u
}

/// Interprets the status code of an upload response: only 200 lets the
/// body be parsed, 413 is a too-large payload, anything else is unknown.
pub fn upload_status_check(status: u16) -> (r: Result<(), UploadError>)
    ensures
        status == 200 ==> r is Ok,
        status == 413 ==> r == Result::<(), UploadError>::Err(UploadError::PayloadTooLarge),
        status != 200 && status != 413 ==> r == Result::<(), UploadError>::Err(
            UploadError::UnknownStatusCode(status),
        ),
{
    if status == 200 {
        Ok(())
    } else if status == 413 {
        Err(UploadError::PayloadTooLarge)
    } else {
        Err(UploadError::UnknownStatusCode(status))
    }
}

/// What a 200 upload response body yields: both markers must occur in the
/// body, the second line must end with `" [Admin]"` and the third with
/// `" [Download]"`; the texts before those suffixes are the admin and
/// download URLs. Any other body yields nothing.
pub open spec fn upload_body_urls(body: Seq<char>) -> Option<(Seq<char>, Seq<char>)> {
    let ls = split_lines(body);
    if has_substring(body, "[Admin]"@) && has_substring(body, "[Download]"@) && ls.len() >= 3
        && ends_with(ls[1], " [Admin]"@) && ends_with(ls[2], " [Download]"@) {
        Some(
            (
                ls[1].take(ls[1].len() - " [Admin]"@.len()),
                ls[2].take(ls[2].len() - " [Download]"@.len()),
            ),
        )
    } else {
        None
    }
}

/// Parses a 200 upload response body into the admin and download URLs;
/// any body without that shape is a malformed response, returned whole
/// inside the error.
pub fn parse_upload_body(body: String) -> (r: Result<(String, String), UploadError>)
    ensures
        r matches Ok(urls) ==> upload_body_urls(body@) == Some((urls.0@, urls.1@)),
        r matches Err(e) ==> upload_body_urls(body@) is None && e
            == UploadError::MalformedResponse(body),
{
    if !contains_str(body.as_str(), "[Admin]") || !contains_str(body.as_str(), "[Download]") {
        return Err(UploadError::MalformedResponse(body));
    }
    let ls: Vec<String> = lines_of(body.as_str());
    if ls.len() < 3 {
        return Err(UploadError::MalformedResponse(body));
    }
    if !str_ends_with(ls[1].as_str(), " [Admin]") {
        return Err(UploadError::MalformedResponse(body));
    }
    if !str_ends_with(ls[2].as_str(), " [Download]") {
        return Err(UploadError::MalformedResponse(body));
    }
    let admin_len: usize = " [Admin]".unicode_len();
    let download_len: usize = " [Download]".unicode_len();
    let admin_url: String = chop_end(ls[1].as_str(), admin_len);
    let download_url: String = chop_end(ls[2].as_str(), download_len);
    Ok((admin_url, download_url))
}

/// The serialized form of a boolean parameter: `"1"` for true, `"0"` for
/// false.
pub open spec fn bool_digit(b: bool) -> Seq<char> {
    if b {
        "1"@
    } else {
        "0"@
    }
}

/// The query parameters an upload configuration determines, in order:
/// one pair for each set field and nothing else. An expiry is sent as
/// whole minutes, seconds divided by sixty and truncated.
pub open spec fn spec_query_params(u: Upload) -> Seq<(Seq<char>, Seq<char>)> {
    let ps = Seq::<(Seq<char>, Seq<char>)>::empty();
    let ps = match u.filename {
        Some(f) => ps.push(("filename"@, f@)),
        None => ps,
    };
    let ps = match u.randomizefn {
        Some(b) => ps.push(("randomizefn"@, bool_digit(b))),
        None => ps,
    };
    let ps = match u.expire {
        Some(secs) => ps.push(("expire"@, dec_digits((secs / 60) as nat))),
        None => ps,
    };
    let ps = match u.autodestroy {
        Some(b) => ps.push(("autodestroy"@, bool_digit(b))),
        None => ps,
    };
    let ps = match u.shorturl {
        Some(b) => ps.push(("shorturl"@, bool_digit(b))),
        None => ps,
    };
    ps
}

/// The views of a list of key-value pairs.
pub open spec fn pairs_view(ps: Seq<(String, String)>) -> Seq<(Seq<char>, Seq<char>)> {
    ps.map_values(|p: (String, String)| (p.0@, p.1@))
}

fn bool_param(b: bool) -> (r: String)
    ensures
        r@ == bool_digit(b),
{
    if b {
        String::from_str("1")
    } else {
        String::from_str("0")
    }
}

/// The query parameters of an upload request: exactly one `(key, value)`
/// pair for each field of the configuration that is set, and none for an
/// unset field.
pub fn upload_query_params(u: &Upload) -> (r: Vec<(String, String)>)
    ensures
        pairs_view(r@) == spec_query_params(*u),
{
    let mut r: Vec<(String, String)> = Vec::new();
    let ghost ps0 = Seq::<(Seq<char>, Seq<char>)>::empty();
    proof {
        assert(pairs_view(r@) =~= ps0);
    }
    if let Some(filename) = &u.filename {
        r.push((String::from_str("filename"), filename.clone()));
    }
    let ghost ps1 = match &u.filename {
        Some(f) => ps0.push(("filename"@, f@)),
        None => ps0,
    };
    proof {
        assert(pairs_view(r@) =~= ps1);
    }
    if let Some(randomizefn) = u.randomizefn {
        r.push((String::from_str("randomizefn"), bool_param(randomizefn)));
    }
    let ghost ps2 = match u.randomizefn {
        Some(b) => ps1.push(("randomizefn"@, bool_digit(b))),
        None => ps1,
    };
    proof {
        assert(pairs_view(r@) =~= ps2);
    }
    if let Some(expire) = u.expire {
        let minutes: u64 = expire / 60;
        r.push((String::from_str("expire"), u64_to_decimal(minutes)));
    }
    let ghost ps3 = match u.expire {
        Some(secs) => ps2.push(("expire"@, dec_digits((secs / 60) as nat))),
        None => ps2,
    };
    proof {
        assert(pairs_view(r@) =~= ps3);
    }
    if let Some(autodestroy) = u.autodestroy {
        r.push((String::from_str("autodestroy"), bool_param(autodestroy)));
    }
    let ghost ps4 = match u.autodestroy {
        Some(b) => ps3.push(("autodestroy"@, bool_digit(b))),
        None => ps3,
    };
    proof {
        assert(pairs_view(r@) =~= ps4);
    }
    if let Some(shorturl) = u.shorturl {
        r.push((String::from_str("shorturl"), bool_param(shorturl)));
    }
    proof {
        assert(pairs_view(r@) =~= spec_query_params(*u));
    }
    r
}

/// A key occurs in a parameter list.
pub open spec fn has_param(ps: Seq<(Seq<char>, Seq<char>)>, key: Seq<char>) -> bool {
    exists|i: int| 0 <= i < ps.len() && (#[trigger] ps[i]).0 == key
}

/// A key-value pair occurs in a parameter list.
pub open spec fn has_pair(
    ps: Seq<(Seq<char>, Seq<char>)>,
    key: Seq<char>,
    value: Seq<char>,
) -> bool {
    exists|i: int| 0 <= i < ps.len() && #[trigger] ps[i] == (key, value)
}

proof fn lemma_param_push(
    ps: Seq<(Seq<char>, Seq<char>)>,
    p: (Seq<char>, Seq<char>),
    key: Seq<char>,
    value: Seq<char>,
)
    ensures
        has_param(ps.push(p), key) <==> (has_param(ps, key) || p.0 == key),
        has_pair(ps.push(p), key, value) <==> (has_pair(ps, key, value) || p == (key, value)),
{
    if has_param(ps, key) {
        let i = choose|i: int| 0 <= i < ps.len() && (#[trigger] ps[i]).0 == key;
        assert(ps.push(p)[i].0 == key);
    }
    if p.0 == key {
        assert(ps.push(p)[ps.len() as int].0 == key);
    }
    if has_param(ps.push(p), key) {
        let i = choose|i: int| 0 <= i < ps.push(p).len() && (#[trigger] ps.push(p)[i]).0 == key;
        if i < ps.len() {
            assert(ps[i].0 == key);
        }
    }
    if has_pair(ps, key, value) {
        let i = choose|i: int| 0 <= i < ps.len() && #[trigger] ps[i] == (key, value);
        assert(ps.push(p)[i] == (key, value));
    }
    if p == (key, value) {
        assert(ps.push(p)[ps.len() as int] == (key, value));
    }
    if has_pair(ps.push(p), key, value) {
        let i = choose|i: int| 0 <= i < ps.push(p).len() && #[trigger] ps.push(p)[i] == (
            key,
            value,
        );
        if i < ps.len() {
            assert(ps[i] == (key, value));
        }
    }
}

/// Law: the query parameter list of a configuration holds exactly the
/// parameters of the fields that are set. A set field contributes its key
/// paired with its serialized value; the key of an unset field is absent;
/// the list is exactly as long as the number of set fields.
pub proof fn lemma_query_params_exact(u: Upload)
    ensures
        u.filename matches Some(f) ==> has_pair(spec_query_params(u), "filename"@, f@),
        u.filename is None ==> !has_param(spec_query_params(u), "filename"@),
        u.randomizefn matches Some(b) ==> has_pair(
            spec_query_params(u),
            "randomizefn"@,
            bool_digit(b),
        ),
        u.randomizefn is None ==> !has_param(spec_query_params(u), "randomizefn"@),
        u.expire matches Some(secs) ==> has_pair(
            spec_query_params(u),
            "expire"@,
            dec_digits((secs / 60) as nat),
        ),
        u.expire is None ==> !has_param(spec_query_params(u), "expire"@),
        u.autodestroy matches Some(b) ==> has_pair(
            spec_query_params(u),
            "autodestroy"@,
            bool_digit(b),
        ),
        u.autodestroy is None ==> !has_param(spec_query_params(u), "autodestroy"@),
        u.shorturl matches Some(b) ==> has_pair(spec_query_params(u), "shorturl"@, bool_digit(b)),
        u.shorturl is None ==> !has_param(spec_query_params(u), "shorturl"@),
        spec_query_params(u).len() == (if u.filename is Some {
            1int
        } else {
            0int
        }) + (if u.randomizefn is Some {
            1int
        } else {
            0int
        }) + (if u.expire is Some {
            1int
        } else {
            0int
        }) + (if u.autodestroy is Some {
            1int
        } else {
            0int
        }) + (if u.shorturl is Some {
            1int
        } else {
            0int
        }),
{
    reveal_strlit("filename");
    reveal_strlit("randomizefn");
    reveal_strlit("expire");
    reveal_strlit("autodestroy");
    reveal_strlit("shorturl");
    assert("filename"@.len() == 8);
    assert("randomizefn"@.len() == 11);
    assert("expire"@.len() == 6);
    assert("autodestroy"@.len() == 11);
    assert("shorturl"@.len() == 8);
    assert("filename"@ != "shorturl"@) by {
        assert("filename"@[0] != "shorturl"@[0]);
    }
    assert("randomizefn"@ != "autodestroy"@) by {
        assert("randomizefn"@[0] != "autodestroy"@[0]);
    }
    let ps0 = Seq::<(Seq<char>, Seq<char>)>::empty();
    let ps1 = match u.filename {
        Some(f) => ps0.push(("filename"@, f@)),
        None => ps0,
    };
    let ps2 = match u.randomizefn {
        Some(b) => ps1.push(("randomizefn"@, bool_digit(b))),
        None => ps1,
    };
    let ps3 = match u.expire {
        Some(secs) => ps2.push(("expire"@, dec_digits((secs / 60) as nat))),
        None => ps2,
    };
    let ps4 = match u.autodestroy {
        Some(b) => ps3.push(("autodestroy"@, bool_digit(b))),
        None => ps3,
    };
    let ps5 = match u.shorturl {
        Some(b) => ps4.push(("shorturl"@, bool_digit(b))),
        None => ps4,
    };
    assert(spec_query_params(u) == ps5);
    let val_filename = match u.filename {
        Some(f) => f@,
        None => Seq::<char>::empty(),
    };
    let val_randomizefn = match u.randomizefn {
        Some(b) => bool_digit(b),
        None => Seq::<char>::empty(),
    };
    let val_expire = match u.expire {
        Some(secs) => dec_digits((secs / 60) as nat),
        None => Seq::<char>::empty(),
    };
    let val_autodestroy = match u.autodestroy {
        Some(b) => bool_digit(b),
        None => Seq::<char>::empty(),
    };
    let val_shorturl = match u.shorturl {
        Some(b) => bool_digit(b),
        None => Seq::<char>::empty(),
    };
    match u.filename {
        Some(f) => {
            let p = ("filename"@, f@);
            lemma_param_push(ps0, p, "filename"@, val_filename);
            lemma_param_push(ps0, p, "randomizefn"@, val_randomizefn);
            lemma_param_push(ps0, p, "expire"@, val_expire);
            lemma_param_push(ps0, p, "autodestroy"@, val_autodestroy);
            lemma_param_push(ps0, p, "shorturl"@, val_shorturl);
        },
        None => {},
    }
    match u.randomizefn {
        Some(b) => {
            let p = ("randomizefn"@, bool_digit(b));
            lemma_param_push(ps1, p, "filename"@, val_filename);
            lemma_param_push(ps1, p, "randomizefn"@, val_randomizefn);
            lemma_param_push(ps1, p, "expire"@, val_expire);
            lemma_param_push(ps1, p, "autodestroy"@, val_autodestroy);
            lemma_param_push(ps1, p, "shorturl"@, val_shorturl);
        },
        None => {},
    }
    match u.expire {
        Some(secs) => {
            let p = ("expire"@, dec_digits((secs / 60) as nat));
            lemma_param_push(ps2, p, "filename"@, val_filename);
            lemma_param_push(ps2, p, "randomizefn"@, val_randomizefn);
            lemma_param_push(ps2, p, "expire"@, val_expire);
            lemma_param_push(ps2, p, "autodestroy"@, val_autodestroy);
            lemma_param_push(ps2, p, "shorturl"@, val_shorturl);
        },
        None => {},
    }
    match u.autodestroy {
        Some(b) => {
            let p = ("autodestroy"@, bool_digit(b));
            lemma_param_push(ps3, p, "filename"@, val_filename);
            lemma_param_push(ps3, p, "randomizefn"@, val_randomizefn);
            lemma_param_push(ps3, p, "expire"@, val_expire);
            lemma_param_push(ps3, p, "autodestroy"@, val_autodestroy);
            lemma_param_push(ps3, p, "shorturl"@, val_shorturl);
        },
        None => {},
    }
    match u.shorturl {
        Some(b) => {
            let p = ("shorturl"@, bool_digit(b));
            lemma_param_push(ps4, p, "filename"@, val_filename);
            lemma_param_push(ps4, p, "randomizefn"@, val_randomizefn);
            lemma_param_push(ps4, p, "expire"@, val_expire);
            lemma_param_push(ps4, p, "autodestroy"@, val_autodestroy);
            lemma_param_push(ps4, p, "shorturl"@, val_shorturl);
        },
        None => {},
    }
}

} // verus!
