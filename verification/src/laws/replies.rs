//! What a service is asked, and how a guest is told what it came back with.
use std::collections::HashMap;
use vstd::prelude::*;
use vstd::utf8::encode_utf8;

use crate::context::RuntimeContext;
use crate::decimal::signed_numeral;
use crate::dispatch::performed;
use crate::json::{object_content, value_bytes, value_of_object};
use crate::laws::terms::{
    has_config, has_crypto, has_database, has_network, has_storage, is_error, is_going_on,
    is_response,
};
use crate::results::json_answer;
use crate::services::config::ConfigCall;
use crate::services::crypto::{CryptoCall, CryptoError, CryptoOutcome};
use crate::services::database::{
    DatabaseCall, DatabaseError, DatabaseOutcome, Record, RecordList,
};
use crate::services::network::{NetworkError, RequestView, Response};
use crate::services::storage::{ObjectInfo, ObjectList, StorageCall, StorageError, StorageOutcome};
use crate::services::ServiceCallView;
use crate::step::{
    crypto_reply, database_reply, network_reply_step, storage_reply, Payload, StepView,
};
use crate::types::{Action, ErrorView, ResultView};

verus! {

/// The database is asked just what the call says, and the answer is told. What
/// kind of answer there is follows from the call.
pub proof fn the_database_is_asked_the_call(
    context: RuntimeContext,
    call: DatabaseCall,
    step: StepView,
)
    requires
        has_database(context),
        performed(context, ServiceCallView::Database(call), step),
    ensures
        exists|outcome: DatabaseOutcome| #[trigger]
            context.platform_services->0.database->0.may_answer(call, outcome) && step
                == database_reply(outcome) && {
                &&& (call is Get || call is Create || call is Update) <==> outcome is Record
                &&& call is List <==> outcome is Page
                &&& call is QueryRaw <==> outcome is Rows
                &&& (call is Count || call is ExecRaw) <==> outcome is Number
                &&& call is Delete <==> outcome is Nothing
            },
{
}

/// A record, a page of records and rows are answered with as they came; a number
/// is answered with by its numeral; and what gives nothing back is answered
/// without any bytes.
pub proof fn database_answers_are_told(
    record: Record,
    page: RecordList,
    rows: Vec<Record>,
    number: i64,
)
    ensures
        database_reply(DatabaseOutcome::Record(Ok(record))) == StepView::Encode(
            Payload::Record(record),
        ),
        database_reply(DatabaseOutcome::Page(Ok(page))) == StepView::Encode(Payload::Page(page)),
        database_reply(DatabaseOutcome::Rows(Ok(rows))) == StepView::Encode(Payload::Rows(rows)),
        is_response(
            database_reply(DatabaseOutcome::Number(Ok(number))),
            encode_utf8(signed_numeral(number as int)),
        ),
        is_response(database_reply(DatabaseOutcome::Nothing(Ok(()))), Seq::empty()),
{
}

/// A failed database call is told alike whatever was asked: a record that is not
/// there is not found, and any other failure is told with its text.
pub proof fn database_failures_are_told(outcome: DatabaseOutcome, text: String)
    requires
        outcome matches DatabaseOutcome::Record(r) ==> r is Err,
        outcome matches DatabaseOutcome::Page(r) ==> r is Err,
        outcome matches DatabaseOutcome::Rows(r) ==> r is Err,
        outcome matches DatabaseOutcome::Number(r) ==> r is Err,
        outcome matches DatabaseOutcome::Nothing(r) ==> r is Err,
    ensures
        ({
            let error = match outcome {
                DatabaseOutcome::Record(r) => r->Err_0,
                DatabaseOutcome::Page(r) => r->Err_0,
                DatabaseOutcome::Rows(r) => r->Err_0,
                DatabaseOutcome::Number(r) => r->Err_0,
                DatabaseOutcome::Nothing(r) => r->Err_0,
            };
            &&& error is NotFound ==> is_error(
                database_reply(outcome),
                "not_found"@,
                "record not found"@,
            )
            &&& error == DatabaseError::Internal(text) || error == DatabaseError::Other(text)
                ==> is_error(database_reply(outcome), "internal"@, text@)
        }),
{
}

/// The storage is asked just what the call says, and the answer is told.
pub proof fn the_storage_is_asked_the_call(
    context: RuntimeContext,
    call: StorageCall,
    step: StepView,
)
    requires
        has_storage(context),
        performed(context, ServiceCallView::Storage(call), step),
    ensures
        exists|outcome: StorageOutcome| #[trigger]
            context.platform_services->0.storage->0.may_answer(call, outcome) && step
                == storage_reply(outcome) && {
                &&& (call is Put || call is Delete) <==> outcome is Nothing
                &&& call is Get <==> outcome is Object
                &&& call is List <==> outcome is Page
            },
{
}

/// An object is answered with by its bytes, all of them; a page of objects as it
/// came; and what gives nothing back without any bytes. A failed call is told
/// alike whatever was asked.
pub proof fn storage_answers_are_told(
    object: (Vec<u8>, ObjectInfo),
    page: ObjectList,
    text: String,
)
    ensures
        is_response(storage_reply(StorageOutcome::Object(Ok(object))), object.0@),
        storage_reply(StorageOutcome::Page(Ok(page))) == StepView::Encode(Payload::Objects(page)),
        is_response(storage_reply(StorageOutcome::Nothing(Ok(()))), Seq::empty()),
        is_error(
            storage_reply(StorageOutcome::Nothing(Err(StorageError::NotFound))),
            "not_found"@,
            "object not found"@,
        ),
        is_error(
            storage_reply(StorageOutcome::Object(Err(StorageError::NotFound))),
            "not_found"@,
            "object not found"@,
        ),
        is_error(
            storage_reply(StorageOutcome::Page(Err(StorageError::NotFound))),
            "not_found"@,
            "object not found"@,
        ),
        is_error(
            storage_reply(StorageOutcome::Nothing(Err(StorageError::Internal(text)))),
            "internal"@,
            text@,
        ),
        is_error(
            storage_reply(StorageOutcome::Object(Err(StorageError::Internal(text)))),
            "internal"@,
            text@,
        ),
        is_error(
            storage_reply(StorageOutcome::Page(Err(StorageError::Internal(text)))),
            "internal"@,
            text@,
        ),
        is_error(
            storage_reply(StorageOutcome::Nothing(Err(StorageError::Other(text)))),
            "internal"@,
            text@,
        ),
        is_error(
            storage_reply(StorageOutcome::Object(Err(StorageError::Other(text)))),
            "internal"@,
            text@,
        ),
        is_error(
            storage_reply(StorageOutcome::Page(Err(StorageError::Other(text)))),
            "internal"@,
            text@,
        ),
{
}

/// The cryptography is asked just what the call says, and the answer is told.
pub proof fn the_cryptography_is_asked_the_call(
    context: RuntimeContext,
    call: CryptoCall,
    step: StepView,
)
    requires
        has_crypto(context),
        performed(context, ServiceCallView::Crypto(call), step),
    ensures
        exists|outcome: CryptoOutcome| #[trigger]
            context.platform_services->0.crypto->0.may_answer(call, outcome) && step
                == crypto_reply(outcome) && {
                &&& (call is Hash || call is Sign) <==> outcome is Text
                &&& call is CompareHash <==> outcome is Nothing
                &&& call is Verify <==> outcome is Claims
                &&& call is RandomBytes <==> outcome is Bytes
            },
{
}

/// A hash or a token is answered with by its text, random bytes as they came,
/// claims by their document, and a password that matches by `true`. A failure to
/// verify is a want of authentication, and any other is told as internal, except
/// that a password that does not match lets the chain go on.
pub proof fn crypto_answers_are_told(
    text: String,
    bytes: Vec<u8>,
    claims: HashMap<String, serde_json::Value>,
)
    ensures
        is_response(crypto_reply(CryptoOutcome::Text(Ok(text))), encode_utf8(text@)),
        is_response(crypto_reply(CryptoOutcome::Bytes(Ok(bytes))), bytes@),
        is_response(
            crypto_reply(CryptoOutcome::Claims(Ok(claims))),
            value_bytes(value_of_object(object_content(claims))),
        ),
        is_response(crypto_reply(CryptoOutcome::Nothing(Ok(()))), encode_utf8("true"@)),
        is_going_on(
            crypto_reply(CryptoOutcome::Nothing(Err(CryptoError::PasswordMismatch(text)))),
        ),
        is_error(
            crypto_reply(CryptoOutcome::Nothing(Err(CryptoError::Other(text)))),
            "internal"@,
            text@,
        ),
        forall|error: CryptoError|
            error == CryptoError::Other(text) || error == CryptoError::PasswordMismatch(text)
                ==> is_error(
                #[trigger] crypto_reply(CryptoOutcome::Text(Err(error))),
                "internal"@,
                text@,
            ),
        forall|error: CryptoError|
            error == CryptoError::Other(text) || error == CryptoError::PasswordMismatch(text)
                ==> is_error(
                #[trigger] crypto_reply(CryptoOutcome::Bytes(Err(error))),
                "internal"@,
                text@,
            ),
        forall|error: CryptoError|
            error == CryptoError::Other(text) || error == CryptoError::PasswordMismatch(text)
                ==> is_error(
                #[trigger] crypto_reply(CryptoOutcome::Claims(Err(error))),
                "unauthenticated"@,
                text@,
            ),
{
}

/// The network is sent just the request of the call, and the outcome is told.
pub proof fn the_network_is_sent_the_request(
    context: RuntimeContext,
    request: RequestView,
    step: StepView,
)
    requires
        has_network(context),
        performed(context, ServiceCallView::Network(request), step),
    ensures
        exists|outcome: Result<Response, NetworkError>| #[trigger]
            context.platform_services->0.network->0.may_answer(request, outcome) && step
                == network_reply_step(outcome),
{
}

/// The configuration is read under the key of the call, and the value is answered
/// with or found missing; it is told the key and the value of the call, and that
/// is answered without any bytes.
pub proof fn the_configuration_is_asked_the_call(
    context: RuntimeContext,
    key: Seq<char>,
    value: Seq<char>,
    read: StepView,
    written: StepView,
)
    requires
        has_config(context),
        performed(context, ServiceCallView::Config(ConfigCall::Read { key }), read),
        performed(context, ServiceCallView::Config(ConfigCall::Write { key, value }), written),
    ensures
        exists|held: Option<Seq<char>>| #[trigger]
            context.platform_services->0.config->0.may_hold(key, held) && match held {
                Some(text) => is_response(read, encode_utf8(text)),
                None => is_error(read, "not_found"@, "config key not found: "@ + key),
            },
        context.platform_services->0.config->0.was_told(key, value),
        is_response(written, Seq::empty()),
{
}

/// A call of a service that is missing is refused, and the refusal names it.
pub proof fn calls_of_missing_services_are_refused(
    context: RuntimeContext,
    call: ServiceCallView,
    step: StepView,
)
    requires
        performed(context, call, step),
    ensures
        context.platform_services is None ==> is_error(
            step,
            "unavailable"@,
            "platform services not configured"@,
        ),
        context.platform_services is Some && call is Database && !has_database(context)
            ==> is_error(step, "unavailable"@, "database service not configured"@),
        context.platform_services is Some && call is Storage && !has_storage(context) ==> is_error(
            step,
            "unavailable"@,
            "storage service not configured"@,
        ),
        context.platform_services is Some && call is Crypto && !has_crypto(context) ==> is_error(
            step,
            "unavailable"@,
            "crypto service not configured"@,
        ),
        context.platform_services is Some && call is Network && !has_network(context) ==> is_error(
            step,
            "unavailable"@,
            "network service not configured"@,
        ),
        context.platform_services is Some && call is Config && !has_config(context) ==> is_error(
            step,
            "unavailable"@,
            "config service not configured"@,
        ),
{
}

/// A document that was written is answered with, and one that could not be is an
/// internal error that says why.
pub proof fn documents_are_answered_with(
    data: Seq<u8>,
    text: Seq<char>,
    complaint: Seq<char>,
)
    ensures
        is_response(StepView::Done(json_answer(Ok(data), complaint)), data),
        is_error(StepView::Done(json_answer(Err(text), complaint)), "internal"@, complaint + text),
{
}

/// What the short forms of results stand for.
pub proof fn results_are_what_they_say(
    data: Seq<u8>,
    code: Seq<char>,
    text: Seq<char>,
    error: ErrorView,
    msg: crate::types::MessageView,
)
    ensures
        is_response(StepView::Done(ResultView::respond(data)), data),
        is_going_on(StepView::Done(ResultView::go_on())),
        is_error(StepView::Done(ResultView::failed(code, text)), code, text),
        ErrorView::plain(code, text) == (ErrorView { code, message: text, meta: Map::empty() }),
        ResultView::failed_with(msg, error) == (ResultView {
            action: Action::Error,
            response: None,
            error: Some(error),
            message: Some(msg),
        }),
{
}

} // verus!
