//! Requests for presigned storage URLs.
use vstd::prelude::*;

verus! {

/// What a presigned URL is asked for.
pub enum S3RequestData {
    GetObject(S3GetParams),
    PutObject(S3PutParams),
    UploadPart(S3UploadParams),
}

/// Reading an object, to be saved under `name`.
pub struct S3GetParams {
    pub bucket: String,
    pub key: String,
    pub name: String,
}

/// Writing an object.
pub struct S3PutParams {
    pub bucket: String,
    pub key: String,
}

/// Writing an object in `parts` parts.
pub struct S3UploadParams {
    pub bucket: String,
    pub key: String,
    pub parts: i64,
}

/// The request for a URL that uploads `key` into `bucket`.
pub fn s3_upload_request(bucket: String, key: String) -> (r: S3RequestData)
    ensures
        r matches S3RequestData::PutObject(p) && p.bucket == bucket && p.key == key,
{
    S3RequestData::PutObject(S3PutParams { bucket, key })
}

/// The request for a URL that downloads `key` from `bucket` (under a fixed
/// placeholder name).
pub fn s3_download_request(bucket: String, key: String) -> (r: S3RequestData)
    ensures
        r matches S3RequestData::GetObject(p) && p.bucket == bucket && p.key == key && p.name@
            == "Don't use this"@,
{
    S3RequestData::GetObject(S3GetParams { bucket, key, name: "Don't use this".to_string() })
}

} // verus!
