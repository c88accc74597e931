//! The results with which the runtime answers a capability.
use vstd::prelude::*;
use vstd::utf8::encode_utf8;

use crate::meta::Meta;
use crate::services::database::DatabaseError;
use crate::services::storage::StorageError;
use crate::text::{join, utf8_bytes};
use crate::types::{Action, Response, ResultView, Result_, WaferError};

verus! {

/// A response with these bytes.
pub fn ok_respond(data: Vec<u8>) -> (r: Result_)
    ensures
        r@ == ResultView::respond(data@),
{
    Result_ {
        action: Action::Respond,
        response: Some(Response { data, meta: Meta::new() }),
        error: None,
        message: None,
    }
}

/// A response without any bytes.
pub fn ok_empty() -> (r: Result_)
    ensures
        r@ == ResultView::respond(Seq::empty()),
{
    ok_respond(Vec::new())
}

/// Nothing to say: the chain goes on.
pub fn ok_continue() -> (r: Result_)
    ensures
        r@ == ResultView::go_on(),
{
    Result_ { action: Action::Continue, response: None, error: None, message: None }
}

/// An error with this code and text.
pub fn err_result(code: &str, message: String) -> (r: Result_)
    ensures
        r@ == ResultView::failed(code@, message@),
{
    Result_ {
        action: Action::Error,
        response: None,
        error: Some(WaferError::new(code, message)),
        message: None,
    }
}

/// An error whose text is put together from two.
pub fn err_joined(code: &str, head: &str, tail: &str) -> (r: Result_)
    ensures
        r@ == ResultView::failed(code@, head@ + tail@),
{
    err_result(code, join(head, tail))
}

/// A response with the UTF-8 bytes of a text.
pub fn text_respond(text: &str) -> (r: Result_)
    ensures
        r@ == ResultView::respond(encode_utf8(text@)),
{
    ok_respond(utf8_bytes(text))
}

/// The answer with a document, or with the text of why it could not be written.
pub open spec fn json_answer(
    document: Result<Seq<u8>, Seq<char>>,
    complaint: Seq<char>,
) -> ResultView {
    match document {
        Ok(data) => ResultView::respond(data),
        Err(text) => ResultView::failed("internal"@, complaint + text),
    }
}

/// Answers with a JSON document once it was written.
pub fn json_respond(document: Result<Vec<u8>, String>) -> (r: Result_)
    ensures
        r@ == json_answer(
            match document {
                Ok(data) => Ok(data@),
                Err(text) => Err(text@),
            },
            "failed to serialize response: "@,
        ),
{
    match document {
        Ok(data) => ok_respond(data),
        Err(text) => err_joined("internal", "failed to serialize response: ", text.as_str()),
    }
}

/// The answer to a failed database call.
pub open spec fn database_failure(error: DatabaseError) -> ResultView {
    match error {
        DatabaseError::NotFound => ResultView::failed("not_found"@, "record not found"@),
        DatabaseError::Internal(text) => ResultView::failed("internal"@, text@),
        DatabaseError::Other(text) => ResultView::failed("internal"@, text@),
    }
}

/// Answers a failed database call.
pub fn db_err(error: DatabaseError) -> (r: Result_)
    ensures
        r@ == database_failure(error),
{
    match error {
        DatabaseError::NotFound => err_result("not_found", "record not found".to_owned()),
        DatabaseError::Internal(text) => err_result("internal", text),
        DatabaseError::Other(text) => err_result("internal", text),
    }
}

/// The answer to a failed storage call.
pub open spec fn storage_failure(error: StorageError) -> ResultView {
    match error {
        StorageError::NotFound => ResultView::failed("not_found"@, "object not found"@),
        StorageError::Internal(text) => ResultView::failed("internal"@, text@),
        StorageError::Other(text) => ResultView::failed("internal"@, text@),
    }
}

/// Answers a failed storage call.
pub fn storage_err(error: StorageError) -> (r: Result_)
    ensures
        r@ == storage_failure(error),
{
    match error {
        StorageError::NotFound => err_result("not_found", "object not found".to_owned()),
        StorageError::Internal(text) => err_result("internal", text),
        StorageError::Other(text) => err_result("internal", text),
    }
}

} // verus!
