//! The errors of the poll service and the responses that report them: each
//! error has a name, an HTTP status and a message, and is answered with a
//! body that carries them.

use crate::validation::{errors_text, FieldErrors, ValidationError, ValidationErrors};
use vstd::prelude::*;

verus! {

/// An error inside the service that no request is answered with directly.
#[derive(Clone, Copy, Debug, PartialEq, Eq)]
pub enum InternalError {
    /// The client's address was missing or could not be read as an address.
    ParseIpError(&'static str),
}

impl InternalError {
    /// How the error reads: its message.
    pub open spec fn spec_message(self) -> Seq<char> {
        match self {
            InternalError::ParseIpError(m) => m@,
        }
    }

    /// The text of the error.
    pub fn to_message(&self) -> (s: String)
        ensures
            s@ == self.spec_message(),
    {
        match self {
            InternalError::ParseIpError(m) => (*m).to_string(),
        }
    }
}

/// An error that a request is answered with.
#[derive(Debug, PartialEq, Eq)]
pub enum HttpError {
    /// The submitted value broke validation rules.
    ValidationError(ValidationErrors),
    /// The request cannot be served as it stands.
    UserError(&'static str),
    /// What the request names does not exist.
    NotFoundError(&'static str),
    /// Something failed inside the service; the message says what was being done.
    UnexpectedError(&'static str),
}

/// The status of a response to a request that was refused as malformed.
pub const BAD_REQUEST: u16 = 400;

/// The status of a response to a request for something that does not exist.
pub const NOT_FOUND: u16 = 404;

/// The status of a response to a request that failed inside the service.
pub const INTERNAL_SERVER_ERROR: u16 = 500;

impl HttpError {
    /// The name of the error's kind.
    pub open spec fn spec_name(self) -> Seq<char> {
        match self {
            HttpError::ValidationError(_) => "ValidationError"@,
            HttpError::UserError(_) => "UserError"@,
            HttpError::NotFoundError(_) => "NotFoundError"@,
            HttpError::UnexpectedError(_) => "UnexpectedError"@,
        }
    }

    /// The HTTP status that the error is answered with.
    pub open spec fn spec_status(self) -> u16 {
        match self {
            HttpError::ValidationError(_) => BAD_REQUEST,
            HttpError::UserError(_) => BAD_REQUEST,
            HttpError::NotFoundError(_) => NOT_FOUND,
            HttpError::UnexpectedError(_) => INTERNAL_SERVER_ERROR,
        }
    }

    /// How the error reads.
    pub open spec fn spec_message(self) -> Seq<char> {
        match self {
            HttpError::ValidationError(e) => errors_text(e),
            HttpError::UserError(m) => m@,
            HttpError::NotFoundError(m) => m@,
            HttpError::UnexpectedError(m) => m@,
        }
    }

    /// The name of the error's kind.
    pub fn name(&self) -> (s: String)
        ensures
            s@ == self.spec_name(),
    {
        match self {
            HttpError::ValidationError(_) => "ValidationError".to_string(),
            HttpError::UserError(_) => "UserError".to_string(),
            HttpError::NotFoundError(_) => "NotFoundError".to_string(),
            HttpError::UnexpectedError(_) => "UnexpectedError".to_string(),
        }
    }

    /// The HTTP status that the error is answered with.
    pub fn status_code(&self) -> (status: u16)
        ensures
            status == self.spec_status(),
    {
        match self {
            HttpError::ValidationError(_) => BAD_REQUEST,
            HttpError::UserError(_) => BAD_REQUEST,
            HttpError::NotFoundError(_) => NOT_FOUND,
            HttpError::UnexpectedError(_) => INTERNAL_SERVER_ERROR,
        }
    }

    /// The text of the error.
    pub fn to_message(&self) -> (s: String)
        ensures
            s@ == self.spec_message(),
    {
        match self {
            HttpError::ValidationError(e) => e.to_message(),
            HttpError::UserError(m) => (*m).to_string(),
            HttpError::NotFoundError(m) => (*m).to_string(),
            HttpError::UnexpectedError(m) => (*m).to_string(),
        }
    }

    /// The response that answers the error: its status, and a body that
    /// lists the broken rules for a validation error and gives the name and
    /// message of any other error.
    pub fn error_response(&self) -> (r: ErrorResponse)
        ensures
            r.status == self.spec_status(),
            match *self {
                HttpError::ValidationError(e) => r.body matches ErrorBody::Validation(b)
                    && b.reports(e),
                _ => r.body matches ErrorBody::Generic(b) && b.reports(*self),
            },
    {
        let status = self.status_code();
        match self {
            HttpError::ValidationError(e) => ErrorResponse {
                status,
                body: ErrorBody::Validation(ValidationErrorResponse::from_errors(e)),
            },
            _ => ErrorResponse { status, body: ErrorBody::Generic(GenericErrorResponse::from_error(self)) },
        }
    }
}

impl From<ValidationErrors> for HttpError {
    /// Broken validation rules are answered as a validation error.
    fn from(errs: ValidationErrors) -> (r: HttpError) {
        HttpError::ValidationError(errs)
    }
}

impl vstd::std_specs::convert::FromSpecImpl<ValidationErrors> for HttpError {
    open spec fn obeys_from_spec() -> bool {
        true
    }

    open spec fn from_spec(errs: ValidationErrors) -> HttpError {
        HttpError::ValidationError(errs)
    }
}

/// The body that reports an error other than a validation error.
#[derive(Debug, PartialEq, Eq)]
pub struct GenericErrorResponse {
    pub name: String,
    pub message: String,
}

impl GenericErrorResponse {
    /// The body carries the error's name and message.
    pub open spec fn reports(self, err: HttpError) -> bool {
        self.name@ == err.spec_name() && self.message@ == err.spec_message()
    }

    /// The body that reports `err`.
    pub fn from_error(err: &HttpError) -> (r: GenericErrorResponse)
        ensures
            r.reports(*err),
    {
        GenericErrorResponse { name: err.name(), message: err.to_message() }
    }
}

/// The broken rules of one field, by their codes.
#[derive(Debug, PartialEq, Eq)]
pub struct ValidationFieldError {
    pub field: String,
    pub errors: Vec<String>,
}

impl ValidationFieldError {
    /// The entry names the field and lists the codes of its errors in order.
    pub open spec fn reports(self, f: FieldErrors) -> bool {
        &&& self.field@ == f.field@
        &&& self.errors@.len() == f.errors@.len()
        &&& forall|j: int|
            0 <= j < f.errors@.len() ==> #[trigger] self.errors@[j]@ == f.errors@[j].code@
    }

    /// The entry that reports the errors of one field.
    pub fn from_field(f: &FieldErrors) -> (r: ValidationFieldError)
        ensures
            r.reports(*f),
    {
        let mut errors: Vec<String> = Vec::new();
        let n = f.errors.len();
        for j in 0..n
            invariant
                n == f.errors@.len(),
                errors@.len() == j,
                forall|k: int| 0 <= k < j ==> #[trigger] errors@[k]@ == f.errors@[k].code@,
        {
            errors.push(f.errors[j].code.to_string());
        }
        ValidationFieldError { field: f.field.to_string(), errors }
    }
}

/// The body that reports a validation error.
#[derive(Debug, PartialEq, Eq)]
pub struct ValidationErrorResponse {
    pub name: String,
    pub message: String,
    pub field_errors: Vec<ValidationFieldError>,
}

impl ValidationErrorResponse {
    /// The body is named `ValidationError`, carries the errors' text, and has
    /// one entry per field in the errors' order.
    pub open spec fn reports(self, e: ValidationErrors) -> bool {
        &&& self.name@ == "ValidationError"@
        &&& self.message@ == errors_text(e)
        &&& self.field_errors@.len() == e.fields@.len()
        &&& forall|i: int|
            0 <= i < e.fields@.len() ==> #[trigger] self.field_errors@[i].reports(e.fields@[i])
    }

    /// The body that reports `err`.
    pub fn from_errors(err: &ValidationErrors) -> (r: ValidationErrorResponse)
        ensures
            r.reports(*err),
    {
        let mut field_errors: Vec<ValidationFieldError> = Vec::new();
        let n = err.fields.len();
        for i in 0..n
            invariant
                n == err.fields@.len(),
                field_errors@.len() == i,
                forall|k: int| 0 <= k < i ==> #[trigger] field_errors@[k].reports(err.fields@[k]),
        {
            field_errors.push(ValidationFieldError::from_field(&err.fields[i]));
        }
        ValidationErrorResponse {
            name: "ValidationError".to_string(),
            message: err.to_message(),
            field_errors,
        }
    }
}

/// The body of an error response.
#[derive(Debug, PartialEq, Eq)]
pub enum ErrorBody {
    Validation(ValidationErrorResponse),
    Generic(GenericErrorResponse),
}

/// A response that reports an error: its HTTP status and its body.
#[derive(Debug, PartialEq, Eq)]
pub struct ErrorResponse {
    pub status: u16,
    pub body: ErrorBody,
}

} // verus!
