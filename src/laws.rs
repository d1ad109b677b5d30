use vstd::prelude::*;

use crate::body::body_result;
use crate::bucket::{put_headers_of, put_string_to_sign_of, token_of};
use crate::headers::{canonical_of, header_line, present_of, signed_headers_of};
use crate::signer::{authorization_of, string_to_sign_of, AwsCredentials};
use crate::url::{base_url_of, Ssl};

verus! {

/// No character of `s` is `c`.
pub open spec fn free_of(s: Seq<char>, c: char) -> bool {
    forall|i: int| 0 <= i < s.len() ==> #[trigger] s[i] != c
}

/// A canonical-header block: empty, or ending in a newline.
pub open spec fn is_header_block(h: Seq<char>) -> bool {
    h.len() == 0 || h.last() == '\n'
}

/// Signing is a function of its inputs: the same verb, date, key, md5,
/// headers, content type, bucket and credentials give the same
/// `Authorization` value.
pub proof fn lemma_sign_deterministic(
    key_id: Seq<char>,
    secret: Seq<char>,
    verb: Seq<char>,
    md5: Seq<char>,
    content_type: Seq<char>,
    date: Seq<char>,
    headers: Seq<char>,
    bucket: Seq<char>,
    key: Seq<char>,
    key_id2: Seq<char>,
    secret2: Seq<char>,
    verb2: Seq<char>,
    md52: Seq<char>,
    content_type2: Seq<char>,
    date2: Seq<char>,
    headers2: Seq<char>,
    bucket2: Seq<char>,
    key2: Seq<char>,
)
    requires
        key_id == key_id2,
        secret == secret2,
        verb == verb2,
        md5 == md52,
        content_type == content_type2,
        date == date2,
        headers == headers2,
        bucket == bucket2,
        key == key2,
    ensures
        authorization_of(key_id, secret, string_to_sign_of(verb, md5, content_type, date, headers, bucket, key))
            == authorization_of(
            key_id2,
            secret2,
            string_to_sign_of(verb2, md52, content_type2, date2, headers2, bucket2, key2),
        ),
{
}

/// Splitting at the first occurrence of a separator that neither head holds.
proof fn lemma_split_at_separator(a: Seq<char>, x: Seq<char>, b: Seq<char>, y: Seq<char>, c: char)
    requires
        free_of(a, c),
        free_of(b, c),
        a + seq![c] + x == b + seq![c] + y,
    ensures
        a == b,
        x == y,
{
    let s1 = a + seq![c] + x;
    let s2 = b + seq![c] + y;
    if a.len() < b.len() {
        assert(s1[a.len() as int] == c);
        assert(s2[a.len() as int] == b[a.len() as int]);
    } else if b.len() < a.len() {
        assert(s2[b.len() as int] == c);
        assert(s1[b.len() as int] == a[b.len() as int]);
    }
    assert(a =~= s1.subrange(0, a.len() as int));
    assert(b =~= s2.subrange(0, b.len() as int));
    assert(x =~= s1.subrange(a.len() + 1int, s1.len() as int));
    assert(y =~= s2.subrange(b.len() + 1int, s2.len() as int));
}

/// A header block is told apart from a tail without newlines.
proof fn lemma_split_header_block(h1: Seq<char>, t1: Seq<char>, h2: Seq<char>, t2: Seq<char>)
    requires
        is_header_block(h1),
        is_header_block(h2),
        free_of(t1, '\n'),
        free_of(t2, '\n'),
        h1 + t1 == h2 + t2,
    ensures
        h1 == h2,
        t1 == t2,
{
    let s = h1 + t1;
    let s2 = h2 + t2;
    assert(s == s2);
    assert(s.len() == h1.len() + t1.len());
    assert(s2.len() == h2.len() + t2.len());
    if h1.len() < h2.len() {
        let k = h2.len() - 1;
        assert(s2[k] == h2[k]);
        assert(s[k] == t1[k - h1.len()]);
        assert(t1[k - h1.len()] != '\n');
    } else if h2.len() < h1.len() {
        let k = h1.len() - 1;
        assert(s[k] == h1[k]);
        assert(s2[k] == t2[k - h2.len()]);
        assert(t2[k - h2.len()] != '\n');
    }
    assert(h1 =~= s.subrange(0, h1.len() as int));
    assert(h2 =~= s2.subrange(0, h2.len() as int));
    assert(t1 =~= s.subrange(h1.len() as int, s.len() as int));
    assert(t2 =~= s2.subrange(h2.len() as int, s2.len() as int));
}

/// The canonical string determines each of its fields, on inputs where the
/// single-line fields hold no newline, the bucket name no `/`, and the
/// headers form a block of lines. So changing any one of verb, md5, content
/// type, date, headers, bucket or key changes the string that is signed.
#[verifier::rlimit(60)]
#[verifier::spinoff_prover]
pub proof fn lemma_string_to_sign_injective(
    verb: Seq<char>,
    md5: Seq<char>,
    content_type: Seq<char>,
    date: Seq<char>,
    headers: Seq<char>,
    bucket: Seq<char>,
    key: Seq<char>,
    verb2: Seq<char>,
    md52: Seq<char>,
    content_type2: Seq<char>,
    date2: Seq<char>,
    headers2: Seq<char>,
    bucket2: Seq<char>,
    key2: Seq<char>,
)
    requires
        free_of(verb, '\n') && free_of(verb2, '\n'),
        free_of(md5, '\n') && free_of(md52, '\n'),
        free_of(content_type, '\n') && free_of(content_type2, '\n'),
        free_of(date, '\n') && free_of(date2, '\n'),
        free_of(bucket, '\n') && free_of(bucket2, '\n'),
        free_of(bucket, '/') && free_of(bucket2, '/'),
        free_of(key, '\n') && free_of(key2, '\n'),
        is_header_block(headers) && is_header_block(headers2),
        string_to_sign_of(verb, md5, content_type, date, headers, bucket, key) == string_to_sign_of(
            verb2,
            md52,
            content_type2,
            date2,
            headers2,
            bucket2,
            key2,
        ),
    ensures
        verb == verb2,
        md5 == md52,
        content_type == content_type2,
        date == date2,
        headers == headers2,
        bucket == bucket2,
        key == key2,
{
    reveal_strlit("\n");
    reveal_strlit("/");
    let nl = seq!['\n'];
    let t1 = "/"@ + bucket + "/"@ + key;
    let t2 = "/"@ + bucket2 + "/"@ + key2;
    let r1 = md5 + nl + content_type + nl + date + nl + headers + t1;
    let r2 = md52 + nl + content_type2 + nl + date2 + nl + headers2 + t2;
    assert(string_to_sign_of(verb, md5, content_type, date, headers, bucket, key) =~= verb + nl + r1);
    assert(string_to_sign_of(verb2, md52, content_type2, date2, headers2, bucket2, key2) =~= verb2 + nl
        + r2);
    lemma_split_at_separator(verb, r1, verb2, r2, '\n');
    let q1 = content_type + nl + date + nl + headers + t1;
    let q2 = content_type2 + nl + date2 + nl + headers2 + t2;
    assert(r1 =~= md5 + nl + q1);
    assert(r2 =~= md52 + nl + q2);
    lemma_split_at_separator(md5, q1, md52, q2, '\n');
    let p1 = date + nl + headers + t1;
    let p2 = date2 + nl + headers2 + t2;
    assert(q1 =~= content_type + nl + p1);
    assert(q2 =~= content_type2 + nl + p2);
    lemma_split_at_separator(content_type, p1, content_type2, p2, '\n');
    assert(p1 =~= date + nl + (headers + t1));
    assert(p2 =~= date2 + nl + (headers2 + t2));
    lemma_split_at_separator(date, headers + t1, date2, headers2 + t2, '\n');
    assert(free_of(t1, '\n')) by {
        assert forall|i: int| 0 <= i < t1.len() implies t1[i] != '\n' by {
            if 1 <= i < 1 + bucket.len() {
                assert(t1[i] == bucket[i - 1]);
            } else if i > 1 + bucket.len() {
                assert(t1[i] == key[i - 2 - bucket.len()]);
            }
        }
    }
    assert(free_of(t2, '\n')) by {
        assert forall|i: int| 0 <= i < t2.len() implies t2[i] != '\n' by {
            if 1 <= i < 1 + bucket2.len() {
                assert(t2[i] == bucket2[i - 1]);
            } else if i > 1 + bucket2.len() {
                assert(t2[i] == key2[i - 2 - bucket2.len()]);
            }
        }
    }
    lemma_split_header_block(headers, t1, headers2, t2);
    assert(t1.drop_first() =~= bucket + seq!['/'] + key);
    assert(t2.drop_first() =~= bucket2 + seq!['/'] + key2);
    lemma_split_at_separator(bucket, key, bucket2, key2, '/');
}

/// The base URL of an encrypted bucket starts with `https://`, of a plain one
/// with `http://`, and both end with `/`.
pub proof fn lemma_base_url_shape(endpoint: Seq<char>, ssl: Ssl)
    ensures
        ssl == Ssl::Yes ==> base_url_of(endpoint, ssl).subrange(0, 8) == "https://"@,
        ssl == Ssl::No ==> base_url_of(endpoint, ssl).subrange(0, 7) == "http://"@,
        base_url_of(endpoint, ssl).last() == '/',
{
    reveal_strlit("https");
    reveal_strlit("http");
    reveal_strlit("://");
    reveal_strlit("https://");
    reveal_strlit("http://");
    reveal_strlit("/");
    let s = base_url_of(endpoint, ssl);
    if ssl == Ssl::Yes {
        assert(s.subrange(0, 8) =~= "https://"@);
    } else {
        assert(s.subrange(0, 7) =~= "http://"@);
    }
}

/// An upload with a session token sends it as the first header, and its
/// canonical line `"x-amz-security-token:{token}\n"` is part of the signed
/// string, right after the date line.
pub proof fn lemma_put_signs_token(
    bucket: Seq<char>,
    key: Seq<char>,
    content_len: nat,
    creds: &AwsCredentials,
    date: Seq<char>,
)
    requires
        creds.token is Some,
    ensures
        put_headers_of(bucket, key, content_len, creds, date)[0] == (
            "x-amz-security-token"@,
            creds.token->Some_0@,
        ),
        put_string_to_sign_of(bucket, key, token_of(creds), date) == string_to_sign_of(
            "PUT"@,
            ""@,
            "application/octet-stream"@,
            date,
            header_line("x-amz-security-token"@, creds.token->Some_0@),
            bucket,
            key,
        ),
        put_headers_of(bucket, key, content_len, creds, date)[5] == (
            "authorization"@,
            authorization_of(
                creds.key@,
                creds.secret@,
                string_to_sign_of(
                    "PUT"@,
                    ""@,
                    "application/octet-stream"@,
                    date,
                    header_line("x-amz-security-token"@, creds.token->Some_0@),
                    bucket,
                    key,
                ),
            ),
        ),
{
    let list = signed_headers_of(token_of(creds));
    assert(list.drop_last() =~= Seq::<(Seq<char>, Option<Seq<char>>)>::empty());
    assert(list.last() == ("x-amz-security-token"@, token_of(creds)));
    assert(canonical_of(list.drop_last()) == Seq::<char>::empty());
    assert(present_of(list.drop_last()) == Seq::<(Seq<char>, Seq<char>)>::empty());
    assert(canonical_of(list) =~= header_line("x-amz-security-token"@, creds.token->Some_0@));
    assert(present_of(list) =~= seq![("x-amz-security-token"@, creds.token->Some_0@)]);
}

/// With no announced length every body is accepted as it came.
pub proof fn lemma_unannounced_body_accepted(bytes: Seq<u8>)
    ensures
        body_result(bytes, None) == Ok::<Seq<u8>, crate::error::S3Error>(bytes),
{
}

} // verus!
