//! The envelopes that the HTTP API answers with, and how errors become
//! answers.

use vstd::prelude::*;

use crate::error::{AppError, AppResult};

verus! {

/// An error that the API reports to its client.
#[derive(Debug)]
pub enum ApiError {
    BadRequest(String),
    NotFound(String),
    Conflict(String),
    Internal,
}

pub type ApiResult<T> = Result<T, ApiError>;

/// The HTTP status code of an error.
pub open spec fn error_status(e: &ApiError) -> u16 {
    match e {
        ApiError::BadRequest(_) => 400,
        ApiError::NotFound(_) => 404,
        ApiError::Conflict(_) => 409,
        ApiError::Internal => 500,
    }
}

/// The machine-readable code of an error.
pub open spec fn error_code(e: &ApiError) -> Seq<char> {
    match e {
        ApiError::BadRequest(_) => "bad_request"@,
        ApiError::NotFound(_) => "not_found"@,
        ApiError::Conflict(_) => "conflict"@,
        ApiError::Internal => "internal_server_error"@,
    }
}

/// The human-readable text of an error: the message it carries, or a
/// fixed text for an internal error, whose cause stays on the server.
pub open spec fn error_message(e: &ApiError) -> Seq<char> {
    match e {
        ApiError::BadRequest(m) => m@,
        ApiError::NotFound(m) => m@,
        ApiError::Conflict(m) => m@,
        ApiError::Internal => "internal server error"@,
    }
}

/// The code of an error answer and its HTTP status determine each other:
/// two errors share a code exactly when they share a status.
pub proof fn law_error_code_matches_status(a: &ApiError, b: &ApiError)
    ensures
        (error_status(a) == error_status(b)) <==> (error_code(a) == error_code(b)),
{
    reveal_strlit("bad_request");
    reveal_strlit("not_found");
    reveal_strlit("conflict");
    reveal_strlit("internal_server_error");
    if error_code(a) == error_code(b) {
        assert(error_code(a).len() == error_code(b).len());
    }
}

/// Every error answer is a client error (4xx) except the internal error,
/// which alone is answered with 500 and a fixed text.
pub proof fn law_error_status_classes(e: &ApiError)
    ensures
        400 <= error_status(e) < 500 || error_status(e) == 500,
        error_status(e) == 500 <==> e is Internal,
        e is Internal ==> error_message(e) == "internal server error"@,
{
}

/// The body of an error answer.
#[derive(Debug)]
pub struct ApiErrorResponse {
    pub status: String,
    pub code: String,
    pub message: String,
}

impl ApiErrorResponse {
    /// An error body with the given code and message.
    pub fn new(code: &str, message: String) -> (r: Self)
        ensures
            r.status@ == "error"@,
            r.code@ == code@,
            r.message@ == message@,
    {
        let status = "error".to_owned();
        proof { reveal_strlit("error"); }
        ApiErrorResponse { status, code: code.to_owned(), message }
    }
}

impl ApiError {
    /// The HTTP status code of this error.
    pub fn status_code(&self) -> (s: u16)
        ensures
            s == error_status(self),
    {
        match self {
            ApiError::BadRequest(_) => 400,
            ApiError::NotFound(_) => 404,
            ApiError::Conflict(_) => 409,
            ApiError::Internal => 500,
        }
    }

    /// The machine-readable code of this error.
    pub fn code(&self) -> (c: &'static str)
        ensures
            c@ == error_code(self),
    {
        match self {
            ApiError::BadRequest(_) => {
                proof { reveal_strlit("bad_request"); }
                "bad_request"
            },
            ApiError::NotFound(_) => {
                proof { reveal_strlit("not_found"); }
                "not_found"
            },
            ApiError::Conflict(_) => {
                proof { reveal_strlit("conflict"); }
                "conflict"
            },
            ApiError::Internal => {
                proof { reveal_strlit("internal_server_error"); }
                "internal_server_error"
            },
        }
    }

    /// The human-readable text of this error.
    pub fn message(&self) -> (m: String)
        ensures
            m@ == error_message(self),
    {
        match self {
            ApiError::BadRequest(m) => m.clone(),
            ApiError::NotFound(m) => m.clone(),
            ApiError::Conflict(m) => m.clone(),
            ApiError::Internal => {
                proof { reveal_strlit("internal server error"); }
                "internal server error".to_owned()
            },
        }
    }

    /// The answer to send for this error: its status code and its body.
    pub fn into_error_response(self) -> (r: (u16, ApiErrorResponse))
        ensures
            r.0 == error_status(&self),
            r.1.status@ == "error"@,
            r.1.code@ == error_code(&self),
            r.1.message@ == error_message(&self),
    {
        let status = self.status_code();
        let code = self.code();
        let message = self.message();
        (status, ApiErrorResponse::new(code, message))
    }
}

/// Turns an application error into the error the client sees.
pub trait MapApiError<T>: Sized {
    /// Any failure becomes an internal error.
    fn map_api_err(self) -> ApiResult<T>;

    /// A failure caused by a query that found no row becomes "not found"
    /// with `message`; any other failure becomes an internal error.
    fn map_api_not_found(self, message: String) -> ApiResult<T>;
}

impl<T> MapApiError<T> for AppResult<T> {
    fn map_api_err(self) -> (r: ApiResult<T>)
        ensures
            match self {
                Ok(v) => r == Ok::<T, ApiError>(v),
                Err(_) => r matches Err(ApiError::Internal),
            },
    {
        match self {
            Ok(v) => Ok(v),
            Err(_) => Err(ApiError::Internal),
        }
    }

    fn map_api_not_found(self, message: String) -> (r: ApiResult<T>)
        ensures
            match self {
                Ok(v) => r == Ok::<T, ApiError>(v),
                Err(e) => if e.caused_by_row_not_found() {
                    r matches Err(ApiError::NotFound(m)) && m@ == message@
                } else {
                    r matches Err(ApiError::Internal)
                },
            },
    {
        match self {
            Ok(v) => Ok(v),
            Err(e) => if e.is_row_not_found() {
                Err(ApiError::NotFound(message))
            } else {
                Err(ApiError::Internal)
            },
        }
    }
}

/// The body of a successful answer: `status` is `"success"` and `data`
/// carries the result.
#[derive(Debug)]
pub struct ApiDataResponse<D> {
    pub status: String,
    pub data: D,
}

impl<D> ApiDataResponse<D> {
    /// A success body around `data`.
    pub fn new(data: D) -> (r: Self)
        ensures
            r.status@ == "success"@,
            r.data == data,
    {
        proof { reveal_strlit("success"); }
        ApiDataResponse { status: "success".to_owned(), data }
    }

    /// A success body around `data`, answered with status 200.
    pub fn ok(data: D) -> (r: Self)
        ensures
            r.status@ == "success"@,
            r.data == data,
    {
        Self::new(data)
    }

    /// The HTTP status code of this answer.
    pub fn status_code(&self) -> (s: u16)
        ensures
            s == 200,
    {
        200
    }
}

/// The body of a successful creation: a success body, answered with
/// status 201 and, where given, the new resource's location.
#[derive(Debug)]
pub struct ApiCreatedResponse<D> {
    pub body: ApiDataResponse<D>,
    pub location: Option<String>,
}

impl<D> ApiCreatedResponse<D> {
    /// A creation answer around `data` at `location`.
    pub fn new(data: D, location: Option<String>) -> (r: Self)
        ensures
            r.body.status@ == "success"@,
            r.body.data == data,
            r.location == location,
    {
        ApiCreatedResponse { body: ApiDataResponse::new(data), location }
    }

    /// The HTTP status code of this answer.
    pub fn status_code(&self) -> (s: u16)
        ensures
            s == 201,
    {
        201
    }
}

} // verus!
