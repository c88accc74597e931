//! What is left to do once a capability was asked for, and the answers to what
//! the services came back with.
use std::collections::HashMap;
use vstd::prelude::*;
use vstd::utf8::encode_utf8;

use crate::base64::{base64_encode, encoded};
use crate::decimal::signed_numeral;
use crate::json::{
    entries_map, error_text, number_value, object_content, object_entries, object_value, text_value,
    value_bytes, value_of_number, value_of_object, value_of_text, value_to_vec,
};
use crate::meta::{pairs_map, Pair};
use crate::results::{
    database_failure, db_err, err_joined, err_result, json_respond, ok_continue, ok_empty,
    ok_respond, storage_err, storage_failure, text_respond,
};
use crate::services::crypto::{CryptoError, CryptoOutcome};
use crate::services::database::{DatabaseError, DatabaseOutcome, Record, RecordList};
use crate::services::network::{Header, NetworkError, Response};
use crate::services::storage::{ObjectInfo, ObjectList, StorageError, StorageOutcome};
use crate::services::{ServiceCall, ServiceCallView};
use crate::types::{ResultView, Result_};

verus! {

/// A value that is to be written as JSON before it can be answered with.
pub enum Payload {
    Record(Record),
    Page(RecordList),
    Rows(Vec<Record>),
    Objects(ObjectList),
}

/// What the bytes of the message are to be read as before the command can be
/// carried out.
#[derive(Debug)]
pub enum Decode {
    ListOptions { collection: String },
    Filters { collection: String },
    Query,
    Statement,
    NetworkRequest,
}

/// What a reading task holds.
pub enum DecodeView {
    ListOptions { collection: Seq<char> },
    Filters { collection: Seq<char> },
    Query,
    Statement,
    NetworkRequest,
}

impl View for Decode {
    type V = DecodeView;

    open spec fn view(&self) -> DecodeView {
        match *self {
            Decode::ListOptions { collection } => DecodeView::ListOptions {
                collection: collection@,
            },
            Decode::Filters { collection } => DecodeView::Filters { collection: collection@ },
            Decode::Query => DecodeView::Query,
            Decode::Statement => DecodeView::Statement,
            Decode::NetworkRequest => DecodeView::NetworkRequest,
        }
    }
}

/// How serious a log line is.
#[derive(Debug, Clone, Copy, PartialEq, Eq, Structural)]
pub enum Severity {
    Debug,
    Info,
    Warn,
    Error,
}

/// A line for the log, with the level that the guest gave it where that is to
/// be shown.
#[derive(Debug)]
pub struct LogLine {
    pub severity: Severity,
    pub level: Option<String>,
    pub message: String,
}

/// What a log line holds.
pub struct LogLineView {
    pub severity: Severity,
    pub level: Option<Seq<char>>,
    pub message: Seq<char>,
}

impl View for LogLine {
    type V = LogLineView;

    open spec fn view(&self) -> LogLineView {
        LogLineView {
            severity: self.severity,
            level: match self.level {
                Some(level) => Some(level@),
                None => None,
            },
            message: self.message@,
        }
    }
}

/// What is left to do: nothing, as the result is there; to write a log line and
/// go on; to read the message's bytes and resume; to call a service, once; or to
/// write a value as JSON and answer with it.
pub enum Step {
    Done(Result_),
    Log(LogLine),
    Decode(Decode),
    Call(ServiceCall),
    Encode(Payload),
}

/// What a step holds.
pub enum StepView {
    Done(ResultView),
    Log(LogLineView),
    Decode(DecodeView),
    Call(ServiceCallView),
    Encode(Payload),
}

impl View for Step {
    type V = StepView;

    open spec fn view(&self) -> StepView {
        match *self {
            Step::Done(result) => StepView::Done(result@),
            Step::Log(line) => StepView::Log(line@),
            Step::Decode(decode) => StepView::Decode(decode@),
            Step::Call(call) => StepView::Call(call@),
            Step::Encode(payload) => StepView::Encode(payload),
        }
    }
}

impl StepView {
    /// The step that reports an error.
    pub open spec fn failed(code: Seq<char>, message: Seq<char>) -> Self {
        StepView::Done(ResultView::failed(code, message))
    }
}

impl Step {
    /// The result once the log line is written.
    pub fn logged() -> (r: Result_)
        ensures
            r@ == ResultView::go_on(),
    {
        ok_continue()
    }
}

/// The step that answers what a database call came back with.
pub open spec fn database_reply(outcome: DatabaseOutcome) -> StepView {
    match outcome {
        DatabaseOutcome::Record(Ok(record)) => StepView::Encode(Payload::Record(record)),
        DatabaseOutcome::Page(Ok(page)) => StepView::Encode(Payload::Page(page)),
        DatabaseOutcome::Rows(Ok(rows)) => StepView::Encode(Payload::Rows(rows)),
        DatabaseOutcome::Number(Ok(n)) => StepView::Done(
            ResultView::respond(encode_utf8(signed_numeral(n as int))),
        ),
        DatabaseOutcome::Nothing(Ok(_)) => StepView::Done(ResultView::respond(Seq::empty())),
        DatabaseOutcome::Record(Err(e)) => StepView::Done(database_failure(e)),
        DatabaseOutcome::Page(Err(e)) => StepView::Done(database_failure(e)),
        DatabaseOutcome::Rows(Err(e)) => StepView::Done(database_failure(e)),
        DatabaseOutcome::Number(Err(e)) => StepView::Done(database_failure(e)),
        DatabaseOutcome::Nothing(Err(e)) => StepView::Done(database_failure(e)),
    }
}

/// Answers a call for one record.
pub fn record_reply(outcome: Result<Record, DatabaseError>) -> (r: Step)
    ensures
        r@ == database_reply(DatabaseOutcome::Record(outcome)),
{
    match outcome {
        Ok(record) => Step::Encode(Payload::Record(record)),
        Err(e) => Step::Done(db_err(e)),
    }
}

/// Answers a call for a page of records.
pub fn page_reply(outcome: Result<RecordList, DatabaseError>) -> (r: Step)
    ensures
        r@ == database_reply(DatabaseOutcome::Page(outcome)),
{
    match outcome {
        Ok(page) => Step::Encode(Payload::Page(page)),
        Err(e) => Step::Done(db_err(e)),
    }
}

/// Answers a call for rows.
pub fn rows_reply(outcome: Result<Vec<Record>, DatabaseError>) -> (r: Step)
    ensures
        r@ == database_reply(DatabaseOutcome::Rows(outcome)),
{
    match outcome {
        Ok(rows) => Step::Encode(Payload::Rows(rows)),
        Err(e) => Step::Done(db_err(e)),
    }
}

/// Writes a JSON value and answers with the document.
fn value_respond(value: &serde_json::Value) -> (r: Result_)
    ensures
        r@ == ResultView::respond(value_bytes(*value)),
        forall|n: i64|
            *value == #[trigger] value_of_number(n as int) ==> r@ == ResultView::respond(
                encode_utf8(signed_numeral(n as int)),
            ),
{
    let document = match value_to_vec(value) {
        Ok(data) => Ok(data),
        Err(e) => Err(error_text(&e)),
    };
    json_respond(document)
}

/// Answers a call for a number.
pub fn number_reply(outcome: Result<i64, DatabaseError>) -> (r: Step)
    ensures
        r@ == database_reply(DatabaseOutcome::Number(outcome)),
{
    match outcome {
        Ok(n) => Step::Done(value_respond(&number_value(n))),
        Err(e) => Step::Done(db_err(e)),
    }
}

/// Answers a call that gives nothing back.
pub fn deleted_reply(outcome: Result<(), DatabaseError>) -> (r: Step)
    ensures
        r@ == database_reply(DatabaseOutcome::Nothing(outcome)),
{
    match outcome {
        Ok(_) => Step::Done(ok_empty()),
        Err(e) => Step::Done(db_err(e)),
    }
}

/// The step that answers what a storage call came back with.
pub open spec fn storage_reply(outcome: StorageOutcome) -> StepView {
    match outcome {
        StorageOutcome::Nothing(Ok(_)) => StepView::Done(ResultView::respond(Seq::empty())),
        StorageOutcome::Object(Ok(object)) => StepView::Done(ResultView::respond(object.0@)),
        StorageOutcome::Page(Ok(page)) => StepView::Encode(Payload::Objects(page)),
        StorageOutcome::Nothing(Err(e)) => StepView::Done(storage_failure(e)),
        StorageOutcome::Object(Err(e)) => StepView::Done(storage_failure(e)),
        StorageOutcome::Page(Err(e)) => StepView::Done(storage_failure(e)),
    }
}

/// Answers a call that gives nothing back.
pub fn stored_reply(outcome: Result<(), StorageError>) -> (r: Step)
    ensures
        r@ == storage_reply(StorageOutcome::Nothing(outcome)),
{
    match outcome {
        Ok(_) => Step::Done(ok_empty()),
        Err(e) => Step::Done(storage_err(e)),
    }
}

/// Answers a call for an object with its bytes.
pub fn object_reply(outcome: Result<(Vec<u8>, ObjectInfo), StorageError>) -> (r: Step)
    ensures
        r@ == storage_reply(StorageOutcome::Object(outcome)),
{
    match outcome {
        Ok((data, _info)) => Step::Done(ok_respond(data)),
        Err(e) => Step::Done(storage_err(e)),
    }
}

/// Answers a call for a page of objects.
pub fn objects_reply(outcome: Result<ObjectList, StorageError>) -> (r: Step)
    ensures
        r@ == storage_reply(StorageOutcome::Page(outcome)),
{
    match outcome {
        Ok(page) => Step::Encode(Payload::Objects(page)),
        Err(e) => Step::Done(storage_err(e)),
    }
}

/// The step that answers what a cryptographic call came back with. A password
/// that does not match is no error: the chain goes on.
pub open spec fn crypto_reply(outcome: CryptoOutcome) -> StepView {
    match outcome {
        CryptoOutcome::Text(Ok(text)) => StepView::Done(ResultView::respond(encode_utf8(text@))),
        CryptoOutcome::Text(Err(e)) => StepView::failed("internal"@, e.text()),
        CryptoOutcome::Nothing(Ok(_)) => StepView::Done(
            ResultView::respond(encode_utf8("true"@)),
        ),
        CryptoOutcome::Nothing(Err(CryptoError::PasswordMismatch(_))) => StepView::Done(
            ResultView::go_on(),
        ),
        CryptoOutcome::Nothing(Err(e)) => StepView::failed("internal"@, e.text()),
        CryptoOutcome::Claims(Ok(claims)) => StepView::Done(
            ResultView::respond(value_bytes(value_of_object(object_content(claims)))),
        ),
        CryptoOutcome::Claims(Err(e)) => StepView::failed("unauthenticated"@, e.text()),
        CryptoOutcome::Bytes(Ok(bytes)) => StepView::Done(ResultView::respond(bytes@)),
        CryptoOutcome::Bytes(Err(e)) => StepView::failed("internal"@, e.text()),
    }
}

/// Answers a call for a hash or a token.
pub fn text_reply(outcome: Result<String, CryptoError>) -> (r: Step)
    ensures
        r@ == crypto_reply(CryptoOutcome::Text(outcome)),
{
    match outcome {
        Ok(text) => Step::Done(text_respond(text.as_str())),
        Err(e) => Step::Done(err_result("internal", e.into_text())),
    }
}

/// Answers a comparison.
pub fn compare_reply(outcome: Result<(), CryptoError>) -> (r: Step)
    ensures
        r@ == crypto_reply(CryptoOutcome::Nothing(outcome)),
{
    match outcome {
        Ok(_) => Step::Done(text_respond("true")),
        Err(CryptoError::PasswordMismatch(_)) => Step::Done(ok_continue()),
        Err(e) => Step::Done(err_result("internal", e.into_text())),
    }
}

/// Answers a call for claims.
pub fn claims_reply(outcome: Result<HashMap<String, serde_json::Value>, CryptoError>) -> (r: Step)
    ensures
        r@ == crypto_reply(CryptoOutcome::Claims(outcome)),
{
    match outcome {
        Ok(claims) => {
            let value = object_value(object_entries(claims));
            Step::Done(value_respond(&value))
        },
        Err(e) => Step::Done(err_result("unauthenticated", e.into_text())),
    }
}

/// Answers a call for random bytes.
pub fn bytes_reply(outcome: Result<Vec<u8>, CryptoError>) -> (r: Step)
    ensures
        r@ == crypto_reply(CryptoOutcome::Bytes(outcome)),
{
    match outcome {
        Ok(bytes) => Step::Done(ok_respond(bytes)),
        Err(e) => Step::Done(err_result("internal", e.into_text())),
    }
}

/// The fields of an object all of whose values are text.
pub open spec fn text_fields(texts: Map<Seq<char>, Seq<char>>) -> Map<
    Seq<char>,
    serde_json::Value,
> {
    texts.map_values(|text: Seq<char>| value_of_text(text))
}

/// The headers of a response, each with its first value.
pub open spec fn first_values(headers: Seq<Header>) -> Seq<Pair> {
    headers.map_values(|h: Header| h.first())
}

/// What a guest is told of a response: the status, the first value of each
/// header, and the body in base64.
pub open spec fn response_fields(response: Response) -> Map<Seq<char>, serde_json::Value> {
    Map::empty().insert("status_code"@, value_of_number(response.status_code as int)).insert(
        "headers"@,
        value_of_object(text_fields(pairs_map(first_values(response.headers@)))),
    ).insert("body"@, value_of_text(encoded(response.body@)))
}

/// The step that answers what a request came back with.
pub open spec fn network_reply_step(outcome: Result<Response, NetworkError>) -> StepView {
    match outcome {
        Ok(response) => StepView::Done(
            ResultView::respond(value_bytes(value_of_object(response_fields(response)))),
        ),
        Err(e) => StepView::failed("internal"@, e.text@),
    }
}

/// The first value of each header, as entries of a JSON object.
fn header_entries(headers: &Vec<Header>) -> (r: Vec<(String, serde_json::Value)>)
    ensures
        entries_map(r@) == text_fields(pairs_map(first_values(headers@))),
{
    let mut out: Vec<(String, serde_json::Value)> = Vec::new();
    let n: usize = headers.len();
    let mut i: usize = 0;
    let ghost firsts = first_values(headers@);
    assert(firsts.take(0) =~= Seq::<Pair>::empty());
    assert(entries_map(out@) =~= text_fields(pairs_map(firsts.take(0))));
    while i < n
        invariant
            i <= n,
            n == headers@.len(),
            firsts == first_values(headers@),
            entries_map(out@) == text_fields(pairs_map(firsts.take(i as int))),
        decreases n - i,
    {
        let header = &headers[i];
        let value = if header.values.len() > 0 {
            header.values[0].clone()
        } else {
            String::new()
        };
        let ghost before = out@;
        out.push((header.name.clone(), text_value(value)));
        proof {
            assert(out@.drop_last() =~= before);
            assert(firsts.take(i + 1).drop_last() =~= firsts.take(i as int));
            assert(firsts[i as int] == header.first());
            assert(entries_map(out@) =~= text_fields(pairs_map(firsts.take(i + 1))));
        }
        i = i + 1;
    }
    assert(firsts.take(n as int) =~= firsts);
    out
}

/// Answers a network request.
pub fn network_reply(outcome: Result<Response, NetworkError>) -> (r: Step)
    ensures
        r@ == network_reply_step(outcome),
{
    match outcome {
        Ok(response) => {
            let headers = object_value(header_entries(&response.headers));
            let body = text_value(base64_encode(response.body.as_slice()));
            let mut entries: Vec<(String, serde_json::Value)> = Vec::new();
            let ghost e0 = entries@;
            entries.push(("status_code".to_owned(), number_value(response.status_code as i64)));
            let ghost e1 = entries@;
            entries.push(("headers".to_owned(), headers));
            let ghost e2 = entries@;
            entries.push(("body".to_owned(), body));
            proof {
                reveal_with_fuel(entries_map, 4);
                assert(e1.drop_last() =~= e0);
                assert(e2.drop_last() =~= e1);
                assert(entries@.drop_last() =~= e2);
                assert(entries_map(entries@) == response_fields(response));
            }
            let value = object_value(entries);
            match value_to_vec(&value) {
                Ok(data) => Step::Done(ok_respond(data)),
                Err(e) => {
                    let text = error_text(&e);
                    Step::Done(
                        err_joined(
                            "internal",
                            "failed to serialize network response: ",
                            text.as_str(),
                        ),
                    )
                },
            }
        },
        Err(e) => Step::Done(err_result("internal", e.text)),
    }
}

/// The step that answers a look-up in a configuration.
pub open spec fn config_reply_step(key: Seq<char>, value: Option<Seq<char>>) -> StepView {
    match value {
        Some(value) => StepView::Done(ResultView::respond(encode_utf8(value))),
        None => StepView::failed("not_found"@, "config key not found: "@ + key),
    }
}

/// Answers a look-up in a configuration.
pub fn config_reply(key: &str, value: Option<&str>) -> (r: Step)
    ensures
        r@ == config_reply_step(
            key@,
            match value {
                Some(value) => Some(value@),
                None => None,
            },
        ),
{
    match value {
        Some(value) => Step::Done(text_respond(value)),
        None => Step::Done(err_joined("not_found", "config key not found: ", key)),
    }
}

} // verus!
