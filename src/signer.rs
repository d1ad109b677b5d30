use vstd::prelude::*;
use vstd::string::*;
use vstd::utf8::encode_utf8;

use crypto::hmac::Hmac;
use crypto::mac::Mac;
use crypto::sha1::Sha1;

verus! {

/// What HMAC-SHA1 yields for a key and a message, both as raw bytes.
pub uninterp spec fn hmac_sha1_of(key: Seq<u8>, data: Seq<u8>) -> Seq<u8>;

/// The standard, padded base64 text of some bytes.
pub uninterp spec fn base64_of(bytes: Seq<u8>) -> Seq<char>;

/// Inputs to SHA-1 must stay well below this many bytes (its bit counter is 64 bits wide).
pub const HASH_INPUT_LIMIT: u64 = 0x1000_0000_0000_0000;

/// Credentials of one request: the access key id, the secret key and an
/// optional session token.
pub struct AwsCredentials {
    pub key: String,
    pub secret: String,
    pub token: Option<String>,
}

impl AwsCredentials {
    pub fn new(key: String, secret: String, token: Option<String>) -> (r: AwsCredentials)
        ensures
            r.key@ == key@,
            r.secret@ == secret@,
            r.token == token,
    {
        AwsCredentials { key, secret, token }
    }

    pub fn aws_access_key_id(&self) -> (r: &str)
        ensures
            r@ == self.key@,
    {
        self.key.as_str()
    }

    pub fn aws_secret_access_key(&self) -> (r: &str)
        ensures
            r@ == self.secret@,
    {
        self.secret.as_str()
    }

    pub fn token(&self) -> (r: &Option<String>)
        ensures
            r == &self.token,
    {
        &self.token
    }
}

/// The canonical string of a request:
/// `"{verb}\n{md5}\n{content_type}\n{date}\n{headers}/{bucket}/{key}"`.
pub open spec fn string_to_sign_of(
    verb: Seq<char>,
    md5: Seq<char>,
    content_type: Seq<char>,
    date: Seq<char>,
    headers: Seq<char>,
    bucket: Seq<char>,
    key: Seq<char>,
) -> Seq<char> {
    verb + "\n"@ + md5 + "\n"@ + content_type + "\n"@ + date + "\n"@ + headers + "/"@ + bucket
        + "/"@ + key
}

/// base64 of the HMAC-SHA1 of the canonical string, keyed by the secret.
pub open spec fn signature_of(string_to_sign: Seq<char>, signing_key: Seq<char>) -> Seq<char> {
    base64_of(hmac_sha1_of(encode_utf8(signing_key), encode_utf8(string_to_sign)))
}

/// `"AWS {access_key_id}:{signature}"`.
pub open spec fn authorization_of(
    access_key_id: Seq<char>,
    secret: Seq<char>,
    string_to_sign: Seq<char>,
) -> Seq<char> {
    "AWS "@ + access_key_id + ":"@ + signature_of(string_to_sign, secret)
}

/// Both inputs of the keyed hash are short enough for SHA-1's bit counter.
pub open spec fn hashable(secret: Seq<char>, string_to_sign: Seq<char>) -> bool {
    encode_utf8(secret).len() < HASH_INPUT_LIMIT && encode_utf8(string_to_sign).len()
        < HASH_INPUT_LIMIT
}

/// Relies on rust-crypto's `Hmac<Sha1>` (`Hmac::new`, `Mac::input`,
/// `Mac::result`): the code depends on key and message alone and is
/// SHA-1's 20-byte output.
#[verifier::external_body]
fn hmac_sha1(key: &str, data: &str) -> (r: Vec<u8>)
    requires
        hashable(key@, data@),
    ensures
        r@ == hmac_sha1_of(encode_utf8(key@), encode_utf8(data@)),
        r@.len() == 20,
{
    let mut mac = Hmac::new(Sha1::new(), key.as_bytes());
    mac.input(data.as_bytes());
    mac.result().code().to_vec()
}

/// Relies on `base64::encode_config` with `base64::STANDARD`: the padded
/// standard-alphabet text of the bytes, four characters for each started
/// group of three bytes (`encoded_size`). That size computation panics only
/// on inputs near `usize::MAX` bytes.
#[verifier::external_body]
fn base64_standard(bytes: &Vec<u8>) -> (r: String)
    requires
        bytes@.len() <= usize::MAX / 2,
    ensures
        r@ == base64_of(bytes@),
        r@.len() == 4 * ((bytes@.len() + 2) / 3),
{
    base64::encode_config::<Vec<u8>>(bytes, base64::STANDARD)
}

/// Signs a canonical string with a secret key.
pub fn signature(string_to_sign: &str, signing_key: &str) -> (r: String)
    requires
        hashable(signing_key@, string_to_sign@),
    ensures
        r@ == signature_of(string_to_sign@, signing_key@),
        r@.len() == 28,
{
    let digest = hmac_sha1(signing_key, string_to_sign);
    base64_standard(&digest)
}

/// Builds the canonical string of a request.
pub fn string_to_sign(
    verb: &str,
    md5: &str,
    content_type: &str,
    date: &str,
    headers: &str,
    bucket: &str,
    key: &str,
) -> (r: String)
    ensures
        r@ == string_to_sign_of(verb@, md5@, content_type@, date@, headers@, bucket@, key@),
{
    let mut s = String::from_str(verb);
    s.append("\n");
    s.append(md5);
    s.append("\n");
    s.append(content_type);
    s.append("\n");
    s.append(date);
    s.append("\n");
    s.append(headers);
    s.append("/");
    s.append(bucket);
    s.append("/");
    s.append(key);
    s
}

/// The value of the `Authorization` header: `"AWS {access_key_id}:{signature}"`.
pub fn authorization(string_to_sign: &str, creds: &AwsCredentials) -> (r: String)
    requires
        hashable(creds.secret@, string_to_sign@),
    ensures
        r@ == authorization_of(creds.key@, creds.secret@, string_to_sign@),
{
    let sig = signature(string_to_sign, creds.aws_secret_access_key());
    let mut r = String::from_str("AWS ");
    r.append(creds.aws_access_key_id());
    r.append(":");
    r.append(sig.as_str());
    r
}

} // verus!
