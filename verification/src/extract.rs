//! A JSON request body that has been decoded and validated, and the errors
//! answered when either step fails.

use vstd::prelude::*;
use crate::error::{HttpError, ItemSpec, ValidationErrorItem, item_views};
use crate::text::{join_with, lemma_split_join, split_on, split_string, string_views};
use crate::validation::{tree_items, validation_errors, ValidationErrors};

verus! {

/// A request body of type `T` that passed validation.
#[derive(Debug, Copy)]
pub struct ValidatedJson<T>(pub T);

impl<T: Default> Default for ValidatedJson<T> {
    /// A body holding the default value of `T`.
    fn default() -> (r: ValidatedJson<T>)
        ensures
            call_ensures(T::default, (), r.0),
    {
        ValidatedJson(T::default())
    }
}

impl<T: Clone> Clone for ValidatedJson<T> {
    /// A copy holding a clone of the body.
    fn clone(&self) -> (r: ValidatedJson<T>)
        ensures
            cloned::<T>(self.0, r.0),
    {
        ValidatedJson(self.0.clone())
    }
}

/// The message answered when the request body cannot be read.
pub open spec fn body_read_message() -> Seq<char> {
    "Failed to read request body"@
}

/// The location of errors in a request body.
pub open spec fn body_path() -> Seq<Seq<char>> {
    seq!["body"@]
}

/// The item type of a body that is not valid JSON for the expected type.
pub open spec fn json_decode_type() -> Seq<char> {
    "value_error.jsondecode"@
}

/// The answer when the request body cannot be read.
pub fn body_read_failure() -> (e: HttpError)
    ensures
        e matches HttpError::InternalServerError { message: None, detail: Some(d) } && d@ == body_read_message(),
{
    HttpError::internal_server_errer(None, Some(String::from_str("Failed to read request body")))
}

/// The answer when decoding the body failed at the dotted `path` (as the
/// decoder renders it): a single item located at the body and the path's
/// segments, with the message of the underlying error when there is one, and
/// the decoder's own message otherwise.
pub fn decode_failure(path: &str, source_message: Option<String>, message: String) -> (e: HttpError)
    ensures
        e matches HttpError::UnprocessableEntity { errors } && item_views(errors@) == seq![
            ItemSpec {
                loc: body_path() + split_on(path@, '.'),
                msg: match source_message {
                    Some(m) => m@,
                    None => message@,
                },
                ty: json_decode_type(),
            },
        ],
{
    let mut loc: Vec<String> = Vec::new();
    loc.push(String::from_str("body"));
    let mut pieces = split_string(path, '.');
    let ghost first = loc@;
    let ghost rest = pieces@;
    loc.append(&mut pieces);
    assert(string_views(loc@) =~= body_path() + split_on(path@, '.')) by {
        assert(loc@ =~= first + rest);
        assert(string_views(first) =~= body_path());
    }
    let msg = match source_message {
        Some(m) => m,
        None => message,
    };
    let item = ValidationErrorItem { loc, msg, ty: String::from_str("value_error.jsondecode") };
    let mut errors: Vec<ValidationErrorItem> = Vec::new();
    errors.push(item);
    assert(item_views(errors@) =~= seq![item@]);
    HttpError::unprocessable_entity(errors)
}

/// The location of a decoding error keeps the decoder's path: it starts at
/// the body, and the segments after it, joined with dots, give the path back.
pub proof fn lemma_decode_location_keeps_path(path: Seq<char>)
    ensures
        (body_path() + split_on(path, '.'))[0] == "body"@,
        join_with((body_path() + split_on(path, '.')).skip(1), '.') == path,
{
    lemma_split_join(path, '.');
    assert((body_path() + split_on(path, '.')).skip(1) =~= split_on(path, '.'));
}

impl<T> ValidatedJson<T> {
    /// Accepts a decoded body if its validation report is clean, and
    /// otherwise answers with every failed check, located under the body.
    pub fn accept(value: T, report: Result<(), ValidationErrors>) -> (r: Result<ValidatedJson<T>, HttpError>)
        ensures
            match (report, r) {
                (Ok(()), Ok(v)) => v.0 == value,
                (Err(rep), Err(HttpError::UnprocessableEntity { errors })) =>
                    item_views(errors@) == tree_items(body_path(), rep),
                _ => false,
            },
    {
        match report {
            Ok(()) => Ok(ValidatedJson(value)),
            Err(rep) => {
                let mut path: Vec<String> = Vec::new();
                path.push(String::from_str("body"));
                assert(string_views(path@) =~= body_path());
                Err(HttpError::unprocessable_entity(validation_errors(path, rep)))
            },
        }
    }
}

} // verus!
