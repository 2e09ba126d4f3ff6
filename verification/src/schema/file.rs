//! Files of a project, kept in object storage.
use vstd::prelude::*;
use crate::time::Timestamp;
use vstd::string::StringExecFns;
use crate::schema::s3::{S3GetParams, S3PutParams, S3RequestData};
use crate::text::{uuid_text, uuid_to_string};

verus! {

/// Where an upload goes: the file's identifiers and the URL to send it to.
pub struct UploadFile {
    pub id: u128,
    pub key: u128,
    pub url: String,
}

/// The URL a file can be downloaded from.
pub struct DownloadFile {
    pub url: String,
}

/// A file. Timestamps are instants in UTC.
pub struct File {
    pub id: u128,
    pub project_id: u128,
    pub name: String,
    pub key: u128,
    pub extension: String,
    pub version: i32,
    pub size: i32,
    pub created_at: Timestamp,
    pub created_by: u128,
    pub updated_at: Timestamp,
    pub updated_by: u128,
}

/// A file as the database hands it over.
pub struct DBFile {
    pub id: u128,
    pub project_id: u128,
    pub name: String,
    pub key: u128,
    pub extension: String,
    pub version: i32,
    pub size: i32,
    pub created_at: Timestamp,
    pub created_by: u128,
    pub updated_at: Timestamp,
    pub updated_by: u128,
}

/// The input for recording a file; its identifier is chosen by the client.
pub struct NewFile {
    pub id: u128,
    pub project_id: u128,
    pub name: String,
    pub key: u128,
    pub extension: String,
    pub size: i32,
}

/// What an upload is asked for.
#[derive(Clone, Copy, Debug, PartialEq, Eq, Structural)]
pub struct UploadFileParams {
    pub id: u128,
    pub project_id: u128,
    pub key: u128,
}

/// The file that a stored one reads as: every field carried over.
pub open spec fn file_of(f: DBFile) -> File {
    File {
        id: f.id,
        project_id: f.project_id,
        name: f.name,
        key: f.key,
        extension: f.extension,
        version: f.version,
        size: f.size,
        created_at: f.created_at,
        created_by: f.created_by,
        updated_at: f.updated_at,
        updated_by: f.updated_by,
    }
}

/// Reading a stored file keeps every one of its fields as it was stored.
pub proof fn lemma_file_of_keeps_fields(stored: DBFile)
    ensures
        file_of(stored).id == stored.id,
        file_of(stored).project_id == stored.project_id,
        file_of(stored).name == stored.name,
        file_of(stored).key == stored.key,
        file_of(stored).extension == stored.extension,
        file_of(stored).version == stored.version,
        file_of(stored).size == stored.size,
        file_of(stored).created_at == stored.created_at,
        file_of(stored).created_by == stored.created_by,
        file_of(stored).updated_at == stored.updated_at,
        file_of(stored).updated_by == stored.updated_by,
{
}

impl File {
    /// Reads a stored file.
    pub fn from(db_file: DBFile) -> (f: File)
        ensures
            f == file_of(db_file),
            f.id == db_file.id,
            f.project_id == db_file.project_id,
            f.name == db_file.name,
            f.key == db_file.key,
            f.extension == db_file.extension,
            f.version == db_file.version,
            f.size == db_file.size,
            f.created_at == db_file.created_at,
            f.created_by == db_file.created_by,
            f.updated_at == db_file.updated_at,
            f.updated_by == db_file.updated_by,
    {
        File {
            id: db_file.id,
            project_id: db_file.project_id,
            name: db_file.name,
            key: db_file.key,
            extension: db_file.extension,
            version: db_file.version,
            size: db_file.size,
            created_at: db_file.created_at,
            created_by: db_file.created_by,
            updated_at: db_file.updated_at,
            updated_by: db_file.updated_by,
        }
    }
}

/// The storage folder of a file: `portals-dev-files-1/<project>/<key>/<id>`.
pub open spec fn file_folder(project_id: u128, key: u128, id: u128) -> Seq<char> {
    "portals-dev-files-1/"@ + uuid_text(project_id) + "/"@ + uuid_text(key) + "/"@ + uuid_text(id)
}

fn folder_of(project_id: u128, key: u128, id: u128) -> (s: String)
    ensures
        s@ == file_folder(project_id, key, id),
{
    let mut s = "portals-dev-files-1/".to_string();
    s.append(uuid_to_string(project_id).as_str());
    s.append("/");
    s.append(uuid_to_string(key).as_str());
    s.append("/");
    s.append(uuid_to_string(id).as_str());
    s
}

/// The request for the URL a file is uploaded to: an object named after the
/// file's identifier, in the file's folder.
pub fn upload_file_request(params: &UploadFileParams) -> (r: S3RequestData)
    ensures
        r matches S3RequestData::PutObject(p) && p.bucket@ == file_folder(params.project_id, params.key, params.id)
            && p.key@ == uuid_text(params.id),
{
    S3RequestData::PutObject(
        S3PutParams { bucket: folder_of(params.project_id, params.key, params.id), key: uuid_to_string(params.id) },
    )
}

/// What an upload answers: the file's identifiers and the URL to send it to.
pub fn upload_file_answer(params: &UploadFileParams, url: String) -> (u: UploadFile)
    ensures
        u.id == params.id,
        u.key == params.key,
        u.url == url,
{
    UploadFile { id: params.id, key: params.key, url }
}

/// The request for the URL a stored file is downloaded from: the object named
/// after the file's identifier, in the file's folder, saved under the file's name.
pub fn download_file_request(file: &DBFile) -> (r: S3RequestData)
    ensures
        r matches S3RequestData::GetObject(p) && p.bucket@ == file_folder(file.project_id, file.key, file.id)
            && p.key@ == uuid_text(file.id) && p.name@ == file.name@,
{
    S3RequestData::GetObject(
        S3GetParams {
            bucket: folder_of(file.project_id, file.key, file.id),
            key: uuid_to_string(file.id),
            name: file.name.clone(),
        },
    )
}

} // verus!
