use vstd::prelude::*;
use vstd::string::StringExecFns;

verus! {

/// One page of results, with the numbers that place it among all pages.
pub struct PaginateResponse<T> {
    pub page: i32,
    pub page_size: i32,
    pub num_data: i32,
    pub num_page: i32,
    pub results: Vec<T>,
}

/// Body of a 404 reply.
pub struct NotFoundResponse {
    pub message: String,
}

/// Body of a 200 reply that carries only a message.
pub struct OkResponse {
    pub message: String,
}

/// Body of a 500 reply.
pub struct InternalServerErrorResponse {
    pub error: String,
}

/// The diagnostic text of a 500 reply: where the failure happened, and what it was.
pub open spec fn error_text(
    filepath: Seq<char>,
    function: Seq<char>,
    identifier: Seq<char>,
    err: Seq<char>,
) -> Seq<char> {
    "error: on "@ + filepath + "::"@ + function + " iden:"@ + identifier + " error:"@ + err
}

impl InternalServerErrorResponse {
    /// Builds the error envelope
    /// `error: on {filepath}::{function} iden:{identifier} error:{err}`.
    pub fn new(filepath: &str, function: &str, identifier: &str, err: &str) -> (r: Self)
        ensures
            r.error@ == error_text(filepath@, function@, identifier@, err@),
    {
        let mut error = String::from_str("error: on ");
        error.append(filepath);
        error.append("::");
        error.append(function);
        error.append(" iden:");
        error.append(identifier);
        error.append(" error:");
        error.append(err);
        InternalServerErrorResponse { error }
    }
}

} // verus!
