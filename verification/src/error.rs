//! Errors answered to HTTP clients.

use vstd::prelude::*;
use crate::text::string_views;

verus! {

/// One problem with a request, located by a path into the request
/// (`loc`), with a human readable message and a machine readable type.
pub struct ValidationErrorItem {
    pub loc: Vec<String>,
    pub msg: String,
    pub ty: String,
}

/// The mathematical content of a [`ValidationErrorItem`].
pub struct ItemSpec {
    pub loc: Seq<Seq<char>>,
    pub msg: Seq<char>,
    pub ty: Seq<char>,
}

impl View for ValidationErrorItem {
    type V = ItemSpec;

    open spec fn view(&self) -> ItemSpec {
        ItemSpec { loc: string_views(self.loc@), msg: self.msg@, ty: self.ty@ }
    }
}

/// The views of a sequence of items.
pub open spec fn item_views(v: Seq<ValidationErrorItem>) -> Seq<ItemSpec> {
    v.map_values(|x: ValidationErrorItem| x@)
}

/// An error answered to the client, with its HTTP status.
pub enum HttpError {
    NotFound { message: Option<String>, detail: Option<String> },
    BadRequest { message: Option<String>, detail: Option<String> },
    InternalServerError { message: Option<String>, detail: Option<String> },
    UnprocessableEntity { errors: Vec<ValidationErrorItem> },
}

impl HttpError {
    /// The HTTP status code of the error.
    pub open spec fn status(&self) -> u16 {
        match self {
            HttpError::NotFound { .. } => 404,
            HttpError::BadRequest { .. } => 400,
            HttpError::InternalServerError { .. } => 500,
            HttpError::UnprocessableEntity { .. } => 422,
        }
    }

    pub fn status_code(&self) -> (code: u16)
        ensures
            code == self.status(),
    {
        match self {
            HttpError::NotFound { .. } => 404,
            HttpError::BadRequest { .. } => 400,
            HttpError::InternalServerError { .. } => 500,
            HttpError::UnprocessableEntity { .. } => 422,
        }
    }

    pub fn not_found(message: Option<String>, detail: Option<String>) -> (e: HttpError)
        ensures
            e == (HttpError::NotFound { message, detail }),
    {
        HttpError::NotFound { message, detail }
    }

    pub fn bad_request(message: Option<String>, detail: Option<String>) -> (e: HttpError)
        ensures
            e == (HttpError::BadRequest { message, detail }),
    {
        HttpError::BadRequest { message, detail }
    }

    pub fn internal_server_errer(message: Option<String>, detail: Option<String>) -> (e: HttpError)
        ensures
            e == (HttpError::InternalServerError { message, detail }),
    {
        HttpError::InternalServerError { message, detail }
    }

    pub fn unprocessable_entity(errors: Vec<ValidationErrorItem>) -> (e: HttpError)
        ensures
            e == (HttpError::UnprocessableEntity { errors }),
    {
        HttpError::UnprocessableEntity { errors }
    }
}

} // verus!
