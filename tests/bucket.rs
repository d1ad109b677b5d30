use simples3::{aggregate_body, base_url, check_get_response, check_status, decimal, parse_content_length};
use simples3::{AwsCredentials, BodyAggregator, Bucket, S3Error, Ssl};

const DATE: &str = "Mon, 01 Jan 2018 00:00:00 GMT";

#[test]
fn base_url_by_security_mode() {
    let https = base_url("example.com:9000", Ssl::Yes);
    assert_eq!(https, "https://example.com:9000/");
    assert!(https.starts_with("https://") && https.ends_with('/'));
    let http = base_url("example.com", Ssl::No);
    assert_eq!(http, "http://example.com/");
    assert!(http.starts_with("http://") && http.ends_with('/'));
}

#[test]
fn end_to_end_urls() {
    let bucket = Bucket::new("assets", "example.com", Ssl::Yes);
    assert_eq!(bucket.name(), "assets");
    assert_eq!(bucket.base_url(), "https://example.com/");
    assert_eq!(bucket.object_url("logo.png"), "https://example.com/logo.png");
    assert_eq!(bucket.describe(), "Bucket(name=assets, base_url=https://example.com/)");
}

#[test]
fn keys_are_used_verbatim() {
    let bucket = Bucket::new("assets", "example.com", Ssl::No);
    assert_eq!(bucket.object_url("a b/c?d"), "http://example.com/a b/c?d");
}

fn chunks() -> Vec<Vec<u8>> {
    vec![b"ab".to_vec(), b"cd".to_vec(), b"ef".to_vec()]
}

#[test]
fn body_with_matching_length() {
    assert_eq!(aggregate_body(&chunks(), Some(6)), Ok(b"abcdef".to_vec()));
}

#[test]
fn body_with_wrong_length() {
    assert_eq!(aggregate_body(&chunks(), Some(5)), Err(S3Error::BodySizeMismatch(6, 5)));
    assert_eq!(aggregate_body(&chunks(), Some(7)), Err(S3Error::BodySizeMismatch(6, 7)));
}

#[test]
fn body_without_length() {
    assert_eq!(aggregate_body(&chunks(), None), Ok(b"abcdef".to_vec()));
    assert_eq!(aggregate_body(&vec![], None), Ok(vec![]));
}

#[test]
fn aggregator_step_by_step() {
    let mut agg = BodyAggregator::new();
    assert_eq!(agg.len(), 0);
    agg.push_chunk(b"ab");
    agg.push_chunk(b"");
    agg.push_chunk(b"cd");
    assert_eq!(agg.len(), 4);
    assert_eq!(agg.finish(Some(4)), Ok(b"abcd".to_vec()));
}

#[test]
fn get_not_found_is_bad_status() {
    assert_eq!(check_get_response(404, Some("6")), Err(S3Error::BadStatus(404)));
    assert_eq!(check_get_response(404, None), Err(S3Error::BadStatus(404)));
    assert_eq!(check_get_response(302, None), Err(S3Error::BadStatus(302)));
}

#[test]
fn get_success_reads_content_length() {
    assert_eq!(check_get_response(200, Some("6")), Ok(Some(6)));
    assert_eq!(check_get_response(204, None), Ok(None));
    assert_eq!(check_get_response(200, Some("six")), Ok(None));
    assert_eq!(check_get_response(299, Some("+7")), Ok(Some(7)));
}

#[test]
fn content_length_parsing() {
    assert_eq!(parse_content_length("0"), Some(0));
    assert_eq!(parse_content_length("1296000"), Some(1296000));
    assert_eq!(parse_content_length(""), None);
    assert_eq!(parse_content_length("+"), None);
    assert_eq!(parse_content_length("-1"), None);
    assert_eq!(parse_content_length("99999999999999999999999"), None);
}

#[test]
fn put_status() {
    assert_eq!(check_status(200), Ok(()));
    assert_eq!(check_status(201), Ok(()));
    assert_eq!(check_status(403), Err(S3Error::BadStatus(403)));
    assert_eq!(check_status(500), Err(S3Error::BadStatus(500)));
}

#[test]
fn decimal_text() {
    assert_eq!(decimal(0), "0");
    assert_eq!(decimal(7), "7");
    assert_eq!(decimal(1296000), "1296000");
    assert_eq!(decimal(usize::MAX), usize::MAX.to_string());
}

#[test]
fn put_with_session_token_signs_it() {
    let bucket = Bucket::new("assets", "example.com", Ssl::Yes);
    let creds = AwsCredentials::new("id".to_string(), "secret".to_string(), Some("tok123".to_string()));
    let req = bucket.put_request("logo.png", 5, &creds, DATE);
    assert_eq!(req.url, "https://example.com/logo.png");
    assert_eq!(req.headers.len(), 6);
    assert_eq!(req.headers[0], ("x-amz-security-token".to_string(), "tok123".to_string()));
    assert_eq!(req.headers[1], ("date".to_string(), DATE.to_string()));
    assert_eq!(req.headers[2], ("content-type".to_string(), "application/octet-stream".to_string()));
    assert_eq!(req.headers[3], ("content-length".to_string(), "5".to_string()));
    assert_eq!(req.headers[4], ("cache-control".to_string(), "max-age=1296000".to_string()));
    let to_sign = format!(
        "PUT\n\napplication/octet-stream\n{}\nx-amz-security-token:tok123\n/assets/logo.png",
        DATE
    );
    let expected_sig = simples3::signature(&to_sign, "secret");
    assert_eq!(req.headers[5].0, "authorization");
    assert!(req.headers[5].1.ends_with(&format!(":{}", expected_sig)));
    assert_eq!(req.headers[5].1, format!("AWS id:{}", expected_sig));
}

#[test]
fn put_without_token_sends_five_headers() {
    let bucket = Bucket::new("assets", "example.com", Ssl::No);
    let creds = AwsCredentials::new("id".to_string(), "secret".to_string(), None);
    let req = bucket.put_request("a/b.bin", 1024, &creds, DATE);
    assert_eq!(req.url, "http://example.com/a/b.bin");
    assert_eq!(req.headers.len(), 5);
    assert_eq!(req.headers[0].0, "date");
    assert_eq!(req.headers[2], ("content-length".to_string(), "1024".to_string()));
    let expected = bucket.auth("PUT", DATE, "a/b.bin", "", "", "application/octet-stream", &creds);
    assert_eq!(req.headers[4], ("authorization".to_string(), expected));
}

#[test]
fn signed_put_is_dated_now() {
    let bucket = Bucket::new("assets", "example.com", Ssl::Yes);
    let creds = AwsCredentials::new("id".to_string(), "secret".to_string(), Some("tok".to_string()));
    let req = bucket.signed_put("logo.png", 3, &creds).unwrap();
    assert_eq!(req.url, "https://example.com/logo.png");
    assert_eq!(req.headers.len(), 6);
    assert_eq!(req.headers[1].0, "date");
    let date = req.headers[1].1.clone();
    assert!(date.ends_with(" GMT"));
    assert_eq!(req.headers, bucket.put_request("logo.png", 3, &creds, &date).headers);
}
