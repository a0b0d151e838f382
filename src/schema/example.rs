use vstd::prelude::*;

use crate::schema::common::InternalServerErrorResponse;

verus! {

/// Echo of a path segment and two optional query values.
pub struct ExamplePathQueryResponse {
    pub path: String,
    pub query_1: Option<String>,
    pub query_2: Option<i64>,
}

/// Body of the 200 reply of the status-dispatch endpoint.
pub struct OkExampleResponse {
    pub data: String,
}

/// Body of the 400 reply of the status-dispatch endpoint.
pub struct BadRequestResponse {
    pub validation_error: String,
}

/// Body of the 422 reply of the status-dispatch endpoint.
pub struct UnprocesableEntityResponse {
    pub validation_error: String,
}

/// The replies of the status-dispatch endpoint, one per status code.
pub enum ExampleMultipleResponse {
    /// 200
    Success(OkExampleResponse),
    /// 400
    BadRequest(BadRequestResponse),
    /// 422
    Unprocessable(UnprocesableEntityResponse),
    /// 500
    InternalServerError(InternalServerErrorResponse),
}

/// A three-field JSON object that the echo endpoint returns unchanged.
pub struct ExampleJSON {
    pub key1: String,
    pub key2: i32,
    pub key3: bool,
}

/// The value of `key 5` when a form leaves it out.
pub fn key_5_default() -> (r: i32)
    ensures
        r == 3,
{
    3
}

/// A file part of a multipart form, as far as the form's logic reads it.
pub struct UploadedFile {
    /// The file name that the part declared, if any.
    pub file_name: Option<String>,
}

/// A multipart form: two required fields, three optional or defaulted ones,
/// at most one file under `file` and any number under `files`.
pub struct ExampleFormRequest {
    pub key1: String,
    pub key2: i32,
    pub key3: Option<String>,
    /// Between one and six characters long when present.
    pub key4: Option<String>,
    /// Sent under the name `key 5`; `key_5_default()` when absent.
    pub key5: i32,
    pub file: Option<UploadedFile>,
    pub files: Vec<UploadedFile>,
}

/// Echo of a multipart form, with each file part replaced by its file name.
pub struct ExampleFormResponse {
    pub key1: String,
    pub key2: i32,
    pub key3: Option<String>,
    pub key4: Option<String>,
    pub key5: i32,
    pub file: Option<String>,
    pub files: Vec<String>,
}

} // verus!
