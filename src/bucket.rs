use vstd::prelude::*;
use vstd::string::*;
use vstd::utf8::encode_utf8;

use crate::error::{is_success, S3Error};
use crate::headers::{
    canonical_headers, canonical_of, decimal, decimal_of, optional_view, pairs_view, present_of,
    signed_headers_of, usize_parse_of, parse_content_length, SECURITY_TOKEN_HEADER,
};
use crate::signer::{
    authorization, authorization_of, hashable, string_to_sign, string_to_sign_of, AwsCredentials,
    HASH_INPUT_LIMIT,
};
use crate::url::{base_url, base_url_of, Ssl};

verus! {

/// Content type of every upload.
pub const CONTENT_TYPE: &'static str = "application/octet-stream";

/// Cache hint sent with every upload: fifteen days.
pub const CACHE_CONTROL: &'static str = "max-age=1296000";

/// An S3 bucket: its name and the base URL of its objects.
pub struct Bucket {
    name: String,
    base_url: String,
}

/// The session token of the credentials, if any.
pub open spec fn token_of(creds: &AwsCredentials) -> Option<Seq<char>> {
    match creds.token {
        Some(t) => Some(t@),
        None => None,
    }
}

/// The canonical string of an upload of `key` into bucket `bucket`.
pub open spec fn put_string_to_sign_of(
    bucket: Seq<char>,
    key: Seq<char>,
    token: Option<Seq<char>>,
    date: Seq<char>,
) -> Seq<char> {
    string_to_sign_of(
        "PUT"@,
        ""@,
        "application/octet-stream"@,
        date,
        canonical_of(signed_headers_of(token)),
        bucket,
        key,
    )
}

/// The headers of an upload, in the order they are set: the present optional
/// signed headers, then date, content type, length, cache hint, authorization.
pub open spec fn put_headers_of(
    bucket: Seq<char>,
    key: Seq<char>,
    content_len: nat,
    creds: &AwsCredentials,
    date: Seq<char>,
) -> Seq<(Seq<char>, Seq<char>)> {
    present_of(signed_headers_of(token_of(creds))) + seq![
        ("date"@, date),
        ("content-type"@, "application/octet-stream"@),
        ("content-length"@, decimal_of(content_len)),
        ("cache-control"@, "max-age=1296000"@),
        (
            "authorization"@,
            authorization_of(
                creds.key@,
                creds.secret@,
                put_string_to_sign_of(bucket, key, token_of(creds), date),
            ),
        ),
    ]
}

/// A signed upload, ready for the transport: where it goes and its headers.
pub struct PutRequest {
    pub url: String,
    pub headers: Vec<(String, String)>,
}

/// What a GET response's status and `Content-Length` header mean: `BadStatus`
/// outside 2xx (the body is then not read); else the announced length, if the
/// header is there and holds a number.
pub open spec fn get_response_of(status: u16, content_length: Option<Seq<char>>) -> Result<
    Option<usize>,
    S3Error,
> {
    if !is_success(status) {
        Err(S3Error::BadStatus(status))
    } else {
        Ok(
            match content_length {
                Some(v) => usize_parse_of(v),
                None => None,
            },
        )
    }
}

/// Decides on a GET response before its body is read.
pub fn check_get_response(status: u16, content_length: Option<&str>) -> (r: Result<
    Option<usize>,
    S3Error,
>)
    ensures
        r == get_response_of(
            status,
            match content_length {
                Some(v) => Some(v@),
                None => None,
            },
        ),
{
    if !(200 <= status && status < 300) {
        return Err(S3Error::BadStatus(status));
    }
    match content_length {
        Some(v) => Ok(parse_content_length(v)),
        None => Ok(None),
    }
}

/// Relies on `time::now_utc` and `Tm::rfc822`: the current UTC time as an
/// RFC-822 date, `"%a, %d %b %Y %T GMT"`. Which time it is, nothing says;
/// the format keeps it short (under 40 characters even for a 10-digit year).
#[verifier::external_body]
fn now_rfc822() -> (r: String)
    ensures
        r@.len() <= 64,
{
    time::now_utc().rfc822().to_string()
}

impl Bucket {
    pub closed spec fn name_view(&self) -> Seq<char> {
        self.name@
    }

    pub closed spec fn base_url_view(&self) -> Seq<char> {
        self.base_url@
    }

    /// A bucket named `name` whose objects are under `"{scheme}://{endpoint}/"`.
    pub fn new(name: &str, endpoint: &str, ssl: Ssl) -> (r: Bucket)
        ensures
            r.name_view() == name@,
            r.base_url_view() == base_url_of(endpoint@, ssl),
    {
        let base_url = base_url(endpoint, ssl);
        Bucket { name: String::from_str(name), base_url }
    }

    pub fn name(&self) -> (r: &str)
        ensures
            r@ == self.name_view(),
    {
        self.name.as_str()
    }

    pub fn base_url(&self) -> (r: &str)
        ensures
            r@ == self.base_url_view(),
    {
        self.base_url.as_str()
    }

    /// `"Bucket(name={name}, base_url={base_url})"`.
    pub fn describe(&self) -> (r: String)
        ensures
            r@ == "Bucket(name="@ + self.name_view() + ", base_url="@ + self.base_url_view() + ")"@,
    {
        let mut r = String::from_str("Bucket(name=");
        r.append(self.name.as_str());
        r.append(", base_url=");
        r.append(self.base_url.as_str());
        r.append(")");
        r
    }

    /// The URL of an object: the base URL followed by the key as it is.
    pub fn object_url(&self, key: &str) -> (r: String)
        ensures
            r@ == self.base_url_view() + key@,
    {
        let mut r = self.base_url.clone();
        r.append(key);
        r
    }

    /// The `Authorization` value of a request on object `path` of this bucket.
    pub fn auth(
        &self,
        verb: &str,
        date: &str,
        path: &str,
        md5: &str,
        headers: &str,
        content_type: &str,
        creds: &AwsCredentials,
    ) -> (r: String)
        requires
            hashable(
                creds.secret@,
                string_to_sign_of(verb@, md5@, content_type@, date@, headers@, self.name_view(), path@),
            ),
        ensures
            r@ == authorization_of(
                creds.key@,
                creds.secret@,
                string_to_sign_of(verb@, md5@, content_type@, date@, headers@, self.name_view(), path@),
            ),
    {
        let s = string_to_sign(verb, md5, content_type, date, headers, self.name.as_str(), path);
        authorization(s.as_str(), creds)
    }

    /// Builds the signed upload of `content_len` bytes to `key`, dated `date`
    /// (an RFC-822 time).
    pub fn put_request(&self, key: &str, content_len: usize, creds: &AwsCredentials, date: &str) -> (r:
        PutRequest)
        requires
            hashable(creds.secret@, put_string_to_sign_of(self.name_view(), key@, token_of(creds), date@)),
        ensures
            r.url@ == self.base_url_view() + key@,
            pairs_view(r.headers@) == put_headers_of(self.name_view(), key@, content_len as nat, creds, date@),
    {
        let url = self.object_url(key);
        let token: Option<&str> = match &creds.token {
            Some(t) => Some(t.as_str()),
            None => None,
        };
        // Keep this list sorted by header name: the order is signed.
        let list: Vec<(&str, Option<&str>)> = vec![(SECURITY_TOKEN_HEADER, token)];
        assert(optional_view(list@) =~= signed_headers_of(token_of(creds)));
        let (mut headers, canonical) = canonical_headers(&list);
        let auth = self.auth("PUT", date, key, "", canonical.as_str(), CONTENT_TYPE, creds);
        let ghost start = pairs_view(headers@);
        headers.push((String::from_str("date"), String::from_str(date)));
        headers.push((String::from_str("content-type"), String::from_str(CONTENT_TYPE)));
        headers.push((String::from_str("content-length"), decimal(content_len)));
        headers.push((String::from_str("cache-control"), String::from_str(CACHE_CONTROL)));
        headers.push((String::from_str("authorization"), auth));
        assert(pairs_view(headers@) =~= put_headers_of(
            self.name_view(),
            key@,
            content_len as nat,
            creds,
            date@,
        ));
        PutRequest { url, headers }
    }

    /// Builds the signed upload of `content_len` bytes to `key`, dated now:
    /// the request of `put_request` for the date read. Gives nothing only
    /// when the secret or the canonical string is too long for SHA-1, which
    /// no date of at most 64 characters causes on ordinary inputs.
    pub fn signed_put(&self, key: &str, content_len: usize, creds: &AwsCredentials) -> (r: Option<
        PutRequest,
    >)
        ensures
            r is Some ==> r->Some_0.url@ == self.base_url_view() + key@,
            r is Some ==> exists|date: Seq<char>|
                date.len() <= 64 && hashable(creds.secret@, put_string_to_sign_of(self.name_view(), key@, token_of(creds), date))
                    && pairs_view(r->Some_0.headers@) == #[trigger] put_headers_of(
                    self.name_view(),
                    key@,
                    content_len as nat,
                    creds,
                    date,
                ),
            r is None ==> exists|date: Seq<char>|
                date.len() <= 64 && !#[trigger] hashable(
                    creds.secret@,
                    put_string_to_sign_of(self.name_view(), key@, token_of(creds), date),
                ),
    {
        let date = now_rfc822();
        let token: Option<&str> = match &creds.token {
            Some(t) => Some(t.as_str()),
            None => None,
        };
        let list: Vec<(&str, Option<&str>)> = vec![(SECURITY_TOKEN_HEADER, token)];
        assert(optional_view(list@) =~= signed_headers_of(token_of(creds)));
        let (_, canonical) = canonical_headers(&list);
        let s = string_to_sign("PUT", "", CONTENT_TYPE, date.as_str(), canonical.as_str(), self.name.as_str(), key);
        let secret_len = creds.secret.as_str().as_bytes().len();
        let signed_len = s.as_str().as_bytes().len();
        assert(s@ == put_string_to_sign_of(self.name_view(), key@, token_of(creds), date@));
        assert(secret_len == encode_utf8(creds.secret@).len());
        assert(signed_len == encode_utf8(s@).len());
        if secret_len as u64 >= HASH_INPUT_LIMIT || signed_len as u64 >= HASH_INPUT_LIMIT {
            assert(!hashable(creds.secret@, put_string_to_sign_of(self.name_view(), key@, token_of(creds), date@)));
            return None;
        }
        let req = self.put_request(key, content_len, creds, date.as_str());
        Some(req)
    }
}

} // verus!
