//! A small client core for an S3-compatible object store: request signing
//! (AWS REST authentication, HMAC-SHA1), bucket URLs and response handling.
//! The network transport stays with the caller; this crate decides what to
//! send and what a response means.

pub mod body;
pub mod bucket;
pub mod error;
pub mod headers;
pub mod laws;
pub mod signer;
pub mod url;

pub use body::{aggregate_body, BodyAggregator};
pub use bucket::{check_get_response, Bucket, PutRequest};
pub use error::{check_status, S3Error};
pub use headers::{canonical_headers, decimal, parse_content_length, SECURITY_TOKEN_HEADER};
pub use signer::{authorization, signature, string_to_sign, AwsCredentials};
pub use url::{base_url, Ssl};
