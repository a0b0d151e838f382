use vstd::prelude::*;
use vstd::string::StringExecFns;

use crate::schema::common::InternalServerErrorResponse;
use crate::schema::example::{
    BadRequestResponse, ExampleFormRequest, ExampleFormResponse, ExampleJSON,
    ExampleMultipleResponse, ExamplePathQueryResponse, OkExampleResponse,
    UnprocesableEntityResponse, UploadedFile,
};
use crate::text::{decimal_of, push_decimal};

pub use crate::security::{api_checker, MyApiKeyAuthorization, UserApiKey};

verus! {

/// What stands for a file part in a form's echo: its file name, or nothing.
pub open spec fn file_name_or_empty(f: UploadedFile) -> Seq<char> {
    match f.file_name {
        Some(name) => name@,
        None => Seq::empty(),
    }
}

/// The endpoints that show the framework's features: text, path and query
/// parameters, status-dependent replies, JSON, multipart forms and API keys.
pub struct ApiExample;

impl ApiExample {
    /// `GET /example/hello`: the fixed text `hello`.
    pub fn hello(&self) -> (r: String)
        ensures
            r@ == "hello"@,
    {
        String::from_str("hello")
    }

    /// `GET /example/path-query/{path}`: the path segment and both query values, unchanged.
    pub fn path_query(
        &self,
        path: String,
        query_1: Option<String>,
        query_2: Option<i64>,
    ) -> (r: ExamplePathQueryResponse)
        ensures
            r == (ExamplePathQueryResponse { path, query_1, query_2 }),
    {
        ExamplePathQueryResponse { path, query_1, query_2 }
    }

    /// `GET /example/multiple-response?status=`: 200, 400 and 500 select their own
    /// fixed bodies; any other status gives a 422 that names it.
    pub fn multiple_response(&self, status: i32) -> (r: ExampleMultipleResponse)
        ensures
            r is Success <==> status == 200,
            r is BadRequest <==> status == 400,
            r is InternalServerError <==> status == 500,
            r is Unprocessable <==> (status != 200 && status != 400 && status != 500),
            r is Success ==> r->Success_0.data@ == "some data"@,
            r is BadRequest ==> r->BadRequest_0.validation_error@ == "some validataion error"@,
            r is InternalServerError ==> r->InternalServerError_0.error@ == "some error"@,
            r is Unprocessable ==> r->Unprocessable_0.validation_error@ == "invalid status = "@
                + decimal_of(status as int),
    {
        if status == 200 {
            ExampleMultipleResponse::Success(OkExampleResponse { data: String::from_str("some data") })
        } else if status == 400 {
            ExampleMultipleResponse::BadRequest(
                BadRequestResponse { validation_error: String::from_str("some validataion error") },
            )
        } else if status == 500 {
            ExampleMultipleResponse::InternalServerError(
                InternalServerErrorResponse { error: String::from_str("some error") },
            )
        } else {
            let mut validation_error = String::from_str("invalid status = ");
            push_decimal(&mut validation_error, status as i64);
            ExampleMultipleResponse::Unprocessable(UnprocesableEntityResponse { validation_error })
        }
    }

    /// `POST /example/json`: the object, unchanged.
    pub fn json_payload_and_response(&self, json: ExampleJSON) -> (r: ExampleJSON)
        ensures
            r == json,
    {
        ExampleJSON { key1: json.key1, key2: json.key2, key3: json.key3 }
    }

    /// `POST /example/form`: the scalar fields unchanged, each file part replaced by
    /// its file name (empty where it declared none).
    pub fn form_payload(&self, form: ExampleFormRequest) -> (r: ExampleFormResponse)
        ensures
            r.key1 == form.key1,
            r.key2 == form.key2,
            r.key3 == form.key3,
            r.key4 == form.key4,
            r.key5 == form.key5,
            r.file is Some <==> form.file is Some,
            r.file is Some ==> r.file->0@ == file_name_or_empty(form.file->0),
            r.files@.len() == form.files@.len(),
            forall|i: int|
                0 <= i < r.files@.len() ==> #[trigger] r.files@[i]@ == file_name_or_empty(
                    form.files@[i],
                ),
    {
        let file = match form.file {
            Some(f) => Some(name_of(&f)),
            None => None,
        };
        let mut files: Vec<String> = Vec::new();
        let mut i: usize = 0;
        while i < form.files.len()
            invariant
                i <= form.files@.len(),
                files@.len() == i,
                forall|j: int|
                    0 <= j < i ==> #[trigger] files@[j]@ == file_name_or_empty(form.files@[j]),
            decreases form.files@.len() - i,
        {
            files.push(name_of(&form.files[i]));
            i = i + 1;
        }
        ExampleFormResponse {
            key1: form.key1,
            key2: form.key2,
            key3: form.key3,
            key4: form.key4,
            key5: form.key5,
            file,
            files,
        }
    }

    /// `GET /example/auth`: the key that the first API-key scheme accepted.
    pub fn auth_example(&self, auth: MyApiKeyAuthorization) -> (r: String)
        ensures
            r@ == auth.0.token@,
    {
        auth.0.token.clone()
    }
}

fn name_of(f: &UploadedFile) -> (r: String)
    ensures
        r@ == file_name_or_empty(*f),
{
    match &f.file_name {
        Some(name) => name.clone(),
        None => String::new(),
    }
}

} // verus!
