use simples3::{authorization, canonical_headers, signature, string_to_sign, AwsCredentials, Bucket, Ssl};

fn creds(token: Option<&str>) -> AwsCredentials {
    AwsCredentials::new(
        "SECRET-REDACTED".to_string(),
        "wJalrXUtnFEMI/K7MDENG/bPxRfiCYEXAMPLEKEY".to_string(),
        token.map(|t| t.to_string()),
    )
}

#[test]
fn hmac_sha1_base64_vector() {
    assert_eq!(
        signature("The quick brown fox jumps over the lazy dog", "key"),
        "3nybhbi3iqa8ino29wqQcBydtNk="
    );
    assert_eq!(signature("", "").len(), 28);
}

#[test]
fn signs_documented_get_example() {
    let bucket = Bucket::new("johnsmith", "s3.amazonaws.com", Ssl::Yes);
    let c = creds(None);
    let auth = bucket.auth("GET", "Tue, 27 Mar 2007 19:36:42 +0000", "photos/puppy.jpg", "", "", "", &c);
    assert_eq!(auth, "AWS SECRET-REDACTED:bWq2s1WEIj+Ydj0vQ697zp+IXMU=");
}

#[test]
fn string_to_sign_layout() {
    let s = string_to_sign("PUT", "md5", "text/plain", "DATE", "x-amz-a:1\n", "b", "k/x");
    assert_eq!(s, "PUT\nmd5\ntext/plain\nDATE\nx-amz-a:1\n/b/k/x");
}

#[test]
fn authorization_prefix_and_signature() {
    let c = creds(None);
    let s = "GET\n\n\nTue, 27 Mar 2007 19:36:42 +0000\n/johnsmith/photos/puppy.jpg";
    let a = authorization(s, &c);
    assert_eq!(a, format!("AWS SECRET-REDACTED:{}", signature(s, "wJalrXUtnFEMI/K7MDENG/bPxRfiCYEXAMPLEKEY")));
}

#[test]
fn signing_is_deterministic() {
    let bucket = Bucket::new("assets", "example.com", Ssl::Yes);
    let c = creds(Some("tok"));
    let a = bucket.auth("PUT", "Mon, 01 Jan 2018 00:00:00 GMT", "logo.png", "", "x-amz-security-token:tok\n", "application/octet-stream", &c);
    let b = bucket.auth("PUT", "Mon, 01 Jan 2018 00:00:00 GMT", "logo.png", "", "x-amz-security-token:tok\n", "application/octet-stream", &c);
    assert_eq!(a, b);
}

#[test]
fn changing_a_signed_field_changes_the_signature() {
    let bucket = Bucket::new("assets", "example.com", Ssl::Yes);
    let c = creds(None);
    let date = "Mon, 01 Jan 2018 00:00:00 GMT";
    let ct = "application/octet-stream";
    let base = bucket.auth("PUT", date, "logo.png", "", "", ct, &c);
    assert_ne!(base, bucket.auth("GET", date, "logo.png", "", "", ct, &c));
    assert_ne!(base, bucket.auth("PUT", "Tue, 02 Jan 2018 00:00:00 GMT", "logo.png", "", "", ct, &c));
    assert_ne!(base, bucket.auth("PUT", date, "logo2.png", "", "", ct, &c));
    assert_ne!(base, bucket.auth("PUT", date, "logo.png", "", "x-amz-security-token:t\n", ct, &c));
    assert_ne!(base, bucket.auth("PUT", date, "logo.png", "", "", "text/plain", &c));
    let other = AwsCredentials::new("SECRET-REDACTED".to_string(), "another-secret".to_string(), None);
    assert_ne!(base, bucket.auth("PUT", date, "logo.png", "", "", ct, &other));
}

#[test]
fn canonical_headers_skip_absent_values() {
    let (headers, canonical) = canonical_headers(&vec![("x-amz-security-token", None)]);
    assert!(headers.is_empty());
    assert_eq!(canonical, "");
    let (headers, canonical) = canonical_headers(&vec![("x-amz-a", Some("1")), ("x-amz-b", None), ("x-amz-c", Some("3"))]);
    assert_eq!(headers, vec![("x-amz-a".to_string(), "1".to_string()), ("x-amz-c".to_string(), "3".to_string())]);
    assert_eq!(canonical, "x-amz-a:1\nx-amz-c:3\n");
}

#[test]
fn credentials_accessors() {
    let c = creds(Some("tok"));
    assert_eq!(c.aws_access_key_id(), "SECRET-REDACTED");
    assert_eq!(c.aws_secret_access_key(), "wJalrXUtnFEMI/K7MDENG/bPxRfiCYEXAMPLEKEY");
    assert_eq!(c.token(), &Some("tok".to_string()));
}
