//! What the conversions do, and which of them undo each other.
use std::collections::HashMap;
use vstd::prelude::*;
use vstd::utf8::encode_utf8;

use crate::base64::{
    base64_decode, base64_encode, decode_inverts_encode, decoded, deserialize, encoded,
    is_decode_complaint, serialize,
};
use crate::block::BlockInfo;
use crate::command::{Command, CryptoCommand, DatabaseCommand, StorageCommand};
use crate::decimal::{
    i64_is_read_back, numeral, parse_i64, parse_u64, parse_usize, parsed_i64, parsed_unsigned,
    signed_numeral, signed_text, unsigned_is_read_back, unsigned_text,
};
use crate::laws::boundary::{
    actions_have_names, messages_are_read_field_by_field, messages_are_written_field_by_field,
    results_are_read_field_by_field, results_are_written_field_by_field, says,
};
use crate::laws::terms::{is_error, is_going_on, is_response, stands_under};
use crate::meta::Meta;
use crate::results::{
    db_err, err_joined, err_result, json_respond, ok_continue, ok_empty, ok_respond, storage_err,
    text_respond,
};
use crate::services::crypto::{CryptoError, CryptoOutcome};
use crate::services::database::{
    DatabaseError, DatabaseOutcome, Filter, FilterOp, ListOptions, Record, RecordList,
};
use crate::services::network::{NetworkError, Response as NetworkResponse};
use crate::services::storage::{ObjectInfo, ObjectList, StorageError, StorageOutcome};
use crate::step::{
    bytes_reply, claims_reply, compare_reply, config_reply, crypto_reply, database_reply,
    deleted_reply, network_reply, network_reply_step, number_reply, object_reply, objects_reply,
    page_reply, record_reply, rows_reply, storage_reply, stored_reply, text_reply, Step, StepView,
};
use crate::text::{chars_of, copy_bytes, join, strip_prefix, text_eq, utf8_bytes};
use crate::types::{
    Action, InstanceMode, LifecycleEvent, LifecycleType, Message, Result_, WaferError,
};
use crate::wasm::format::{
    block_info_from_wasm, lifecycle_event_to_wasm, message_from_wasm, message_is_read_back,
    message_to_wasm, result_from_wasm, result_is_read_back, result_to_wasm, WasmBlockInfo,
    WasmLifecycleEvent, WasmMessage, WasmResult,
};
use crate::wasm::packed::{pack_i64, packing_is_injective, unpack_i64};
use crate::wire::{filter_op, into_filters, parse_filter_op, WireFilter, WireListOptions};

verus! {

/// Reading what bytes were written as gives the bytes.
pub proof fn bytes_are_written_and_read_back(
    bytes: &Vec<u8>,
    text: String,
    input: &str,
    r: Result<Vec<u8>, String>,
    d: Result<Vec<u8>, String>,
)
    requires
        call_ensures(serialize, (bytes,), text),
        input@ == text@,
        call_ensures(deserialize, (input,), r),
        call_ensures(base64_decode, (input,), d),
    ensures
        text@ == encoded(bytes@),
        r is Ok && r->Ok_0@ == bytes@,
        d is Ok && d->Ok_0@ == bytes@,
{
    decode_inverts_encode(bytes@);
}

/// Encoding and decoding give what is said of their input. A text is decoded or
/// refused, and a refusal names the first character outside the alphabet.
pub proof fn texts_are_decoded_or_refused(
    data: &[u8],
    text: String,
    input: &str,
    r: Result<Vec<u8>, String>,
    d: Result<Vec<u8>, String>,
)
    requires
        call_ensures(base64_encode, (data,), text),
        call_ensures(base64_decode, (input,), r),
        call_ensures(deserialize, (input,), d),
    ensures
        text@ == encoded(data@),
        r is Ok <==> decoded(input@) is Some,
        r is Ok ==> decoded(input@) == Some(r->Ok_0@),
        r is Err ==> is_decode_complaint(input@, r->Err_0@),
        d is Ok <==> decoded(input@) is Some,
        d is Ok ==> decoded(input@) == Some(d->Ok_0@),
        d is Err ==> is_decode_complaint(input@, d->Err_0@),
{
}

/// A number is written as its numeral, from which it is read.
pub proof fn numbers_are_written_and_read_back(
    n: u64,
    i: i32,
    text: String,
    signed: String,
    input: &str,
    signed_input: &str,
    r: Option<u64>,
    u: Option<usize>,
    s: Option<i64>,
)
    requires
        call_ensures(unsigned_text, (n,), text),
        call_ensures(signed_text, (i,), signed),
        input@ == text@,
        signed_input@ == signed@,
        call_ensures(parse_u64, (input,), r),
        call_ensures(parse_usize, (input,), u),
        call_ensures(parse_i64, (signed_input,), s),
    ensures
        text@ == numeral(n as nat),
        signed@ == signed_numeral(i as int),
        r == Some(n),
        n <= usize::MAX ==> u == Some(n as usize),
        s == Some(i as i64),
{
    unsigned_is_read_back(n as nat, u64::MAX as int);
    if n <= usize::MAX {
        unsigned_is_read_back(n as nat, usize::MAX as int);
    }
    i64_is_read_back(i as i64);
}

/// A text is read as the number that is said of it, or not at all.
pub proof fn texts_are_read_as_numbers(
    s: &str,
    r: Option<u64>,
    u: Option<usize>,
    i: Option<i64>,
)
    requires
        call_ensures(parse_u64, (s,), r),
        call_ensures(parse_usize, (s,), u),
        call_ensures(parse_i64, (s,), i),
    ensures
        r is Some <==> parsed_unsigned(s@, u64::MAX as int) is Some,
        r is Some ==> r->0 == parsed_unsigned(s@, u64::MAX as int)->0,
        u is Some <==> parsed_unsigned(s@, usize::MAX as int) is Some,
        u is Some ==> u->0 == parsed_unsigned(s@, usize::MAX as int)->0,
        i is Some <==> parsed_i64(s@) is Some,
        i is Some ==> i->0 == parsed_i64(s@)->0,
{
}

/// Texts are compared, cut, joined and copied character by character.
pub proof fn texts_are_kept_character_by_character(
    a: &str,
    b: &str,
    same: bool,
    rest: Option<&str>,
    chars: Vec<char>,
    joined: String,
    utf8: Vec<u8>,
    bytes: &[u8],
    copied: Vec<u8>,
)
    requires
        call_ensures(text_eq, (a, b), same),
        call_ensures(strip_prefix, (a, b), rest),
        call_ensures(chars_of, (a,), chars),
        call_ensures(join, (a, b), joined),
        call_ensures(utf8_bytes, (a,), utf8),
        call_ensures(copy_bytes, (bytes,), copied),
    ensures
        same <==> a@ == b@,
        rest is Some <==> b@.is_prefix_of(a@),
        rest is Some ==> a@ == b@ + rest->0@,
        chars@ == a@,
        joined@ == a@ + b@,
        utf8@ == encode_utf8(a@),
        copied@ == bytes@,
{
    if rest is Some {
        assert(a@ =~= b@ + rest->0@);
    }
}

/// Metadata is read from pairs and listed in pairs that say the same, and a key
/// has the value that the map has.
pub proof fn metadata_is_what_its_pairs_say(
    pairs: &Vec<[String; 2]>,
    meta: Meta,
    listed: Vec<[String; 2]>,
    key: &str,
    value: Option<&String>,
)
    requires
        call_ensures(Meta::from_pairs, (pairs,), meta),
        call_ensures(Meta::to_pairs, (&meta,), listed),
        call_ensures(Meta::get, (&meta, key), value),
    ensures
        says(pairs@, meta@),
        says(listed@, meta@),
        value is Some <==> meta@.contains_key(key@),
        value is Some ==> value->0@ == meta@[key@],
{
    crate::laws::boundary::pairs_say_their_map(pairs@);
    crate::laws::boundary::pairs_say_their_map(listed@);
}

/// A message that is written for the boundary and read from it again is the same
/// message.
pub proof fn messages_cross_the_boundary(
    msg: &Message,
    wire: WasmMessage,
    back: Message,
)
    requires
        call_ensures(message_to_wasm, (msg,), wire),
        call_ensures(message_from_wasm, (wire,), back),
    ensures
        wire.kind@ == msg.kind@,
        wire.data@ == msg.data@,
        says(wire.meta@, msg.meta@),
        back.kind@ == msg.kind@,
        back.data@ == msg.data@,
        back.meta@ == msg.meta@,
{
    messages_are_written_field_by_field(msg@, wire);
    message_is_read_back(msg@, wire);
    assert(back@ == msg@);
    assert(back@.kind == back.kind@ && back@.data == back.data@ && back@.meta == back.meta@);
}

/// A message from the boundary is read field by field.
pub proof fn messages_from_the_boundary_are_read(wire: WasmMessage, msg: Message)
    requires
        call_ensures(message_from_wasm, (wire,), msg),
    ensures
        msg.kind@ == wire.kind@,
        msg.data@ == wire.data@,
        says(wire.meta@, msg.meta@),
{
    messages_are_read_field_by_field(wire);
    assert(msg@ == wire.meaning());
    assert(msg@.kind == msg.kind@ && msg@.data == msg.data@ && msg@.meta == msg.meta@);
}

/// A result that is written for the boundary and read from it again is the same
/// result, less the message that it hands back; its error and its response are
/// there exactly where they were, with the same code, text, bytes and metadata.
pub proof fn results_cross_the_boundary(result: &Result_, wire: WasmResult, back: Result_)
    requires
        call_ensures(result_to_wasm, (result,), wire),
        call_ensures(result_from_wasm, (wire,), back),
    ensures
        wire.error is Some <==> result.error is Some,
        result.error is Some ==> wire.error->0.code@ == result.error->0.code@
            && wire.error->0.message@ == result.error->0.message@ && says(
            wire.error->0.meta@,
            result.error->0.meta@,
        ),
        wire.response is Some <==> result.response is Some,
        result.response is Some ==> wire.response->0.data@ == result.response->0.data@ && says(
            wire.response->0.meta@,
            result.response->0.meta@,
        ),
        back.action == result.action,
        back.message is None,
        back.error is Some <==> result.error is Some,
        result.error is Some ==> back.error->0@ == result.error->0@,
        back.response is Some <==> result.response is Some,
        result.response is Some ==> back.response->0@ == result.response->0@,
{
    results_are_written_field_by_field(result@, wire);
    result_is_read_back(result@, wire);
    assert(back@ == wire.meaning());
    assert(back@.error is Some <==> back.error is Some);
    assert(back@.response is Some <==> back.response is Some);
    assert(back@.message is Some <==> back.message is Some);
}

/// A result from the boundary is read field by field.
pub proof fn results_from_the_boundary_are_read(wire: WasmResult, result: Result_)
    requires
        call_ensures(result_from_wasm, (wire,), result),
    ensures
        result.error is Some <==> wire.error is Some,
        wire.error is Some ==> result.error->0.code@ == wire.error->0.code@
            && result.error->0.message@ == wire.error->0.message@ && says(
            wire.error->0.meta@,
            result.error->0.meta@,
        ),
        result.response is Some <==> wire.response is Some,
        wire.response is Some ==> result.response->0.data@ == wire.response->0.data@ && says(
            wire.response->0.meta@,
            result.response->0.meta@,
        ),
        result.message is None,
        wire.action@ == "respond"@ ==> result.action == Action::Respond,
        wire.action@ == "drop"@ ==> result.action == Action::Drop,
        wire.action@ == "error"@ ==> result.action == Action::Error,
        wire.action@ != "respond"@ && wire.action@ != "drop"@ && wire.action@ != "error"@
            ==> result.action == Action::Continue,
{
    results_are_read_field_by_field(wire);
    assert(result@ == wire.meaning());
    assert(result@.error is Some <==> result.error is Some);
    assert(result@.response is Some <==> result.response is Some);
    assert(result@.message is Some <==> result.message is Some);
}

/// A self-description from the boundary is read field by field.
pub proof fn descriptions_from_the_boundary_are_read(wire: WasmBlockInfo, info: BlockInfo)
    requires
        call_ensures(block_info_from_wasm, (wire,), info),
    ensures
        info.name@ == wire.name@,
        info.version@ == wire.version@,
        info.interface@ == wire.interface@,
        info.summary@ == wire.summary@,
        info.admin_ui is None,
        info@ == wire.meaning(),
{
    assert(info@ == wire.meaning());
    assert(info@.name == info.name@ && info@.version == info.version@);
    assert(info@.admin_ui is Some <==> info.admin_ui is Some);
}

/// A lifecycle event is written by the name of its point, with its bytes.
pub proof fn events_are_written_by_name(event: &LifecycleEvent, wire: WasmLifecycleEvent)
    requires
        call_ensures(lifecycle_event_to_wasm, (event,), wire),
    ensures
        event.event_type == LifecycleType::Init ==> wire.event_type@ == "init"@,
        event.event_type == LifecycleType::Start ==> wire.event_type@ == "start"@,
        event.event_type == LifecycleType::Stop ==> wire.event_type@ == "stop"@,
        wire.data@ == event.data@,
{
}

/// A pointer and a length that are packed are unpacked again.
pub proof fn packing_is_undone(ptr: i32, len: i32, pair: i64, r: (i32, i32))
    requires
        call_ensures(pack_i64, (ptr, len), pair),
        call_ensures(unpack_i64, (pair,), r),
    ensures
        r == (ptr, len),
        pair == ptr * 0x1_0000_0000 + (if len >= 0 {
            len as int
        } else {
            len + 0x1_0000_0000
        }),
{
    packing_is_injective(ptr, len, r.0, r.1);
    assert(len >= 0 ==> (len as u32) as i64 == len as i64) by (bit_vector);
    assert(len < 0 ==> (len as u32) as i64 == (len as i64) + 0x1_0000_0000i64) by (bit_vector);
}

/// Actions and modes are read from their names.
pub proof fn names_are_read(
    action: &Action,
    text: String,
    name: &str,
    read: Action,
    mode: Option<InstanceMode>,
    op: FilterOp,
)
    requires
        call_ensures(Action::to_string, (action,), text),
        call_ensures(Action::parse, (name,), read),
        call_ensures(InstanceMode::parse, (name,), mode),
        call_ensures(parse_filter_op, (name,), op),
    ensures
        name@ == text@ ==> read == *action,
        *action == Action::Continue ==> text@ == "continue"@,
        *action == Action::Respond ==> text@ == "respond"@,
        *action == Action::Drop ==> text@ == "drop"@,
        *action == Action::Error ==> text@ == "error"@,
        name@ != "respond"@ && name@ != "drop"@ && name@ != "error"@ ==> read == Action::Continue,
        mode == InstanceMode::named(name@),
        op == filter_op(name@),
{
    actions_have_names();
}

/// Commands are read from their names.
pub proof fn commands_are_read_by_name(
    name: &str,
    command: Command,
    database: Option<DatabaseCommand>,
    storage: Option<StorageCommand>,
    crypto: Option<CryptoCommand>,
)
    requires
        call_ensures(Command::parse, (name,), command),
        call_ensures(DatabaseCommand::parse, (name,), database),
        call_ensures(StorageCommand::parse, (name,), storage),
        call_ensures(CryptoCommand::parse, (name,), crypto),
    ensures
        command == Command::named(name@),
        command is Database <==> database is Some,
        database is Some ==> command == Command::Database(database->0),
        command is Storage ==> storage is Some && command == Command::Storage(storage->0),
        command is Crypto ==> crypto is Some && command == Command::Crypto(crypto->0),
{
}

/// Filters and list options are read one for one.
pub proof fn options_are_read_one_for_one(
    wire: WireListOptions,
    options: ListOptions,
    filters: Vec<WireFilter>,
    read: Vec<Filter>,
    i: int,
)
    requires
        call_ensures(WireListOptions::into_list_options, (wire,), options),
        call_ensures(into_filters, (filters,), read),
    ensures
        options@.filters.len() == wire.filters@.len(),
        0 <= i < wire.filters@.len() ==> options@.filters[i].field == wire.filters@[i].field@
            && options@.filters[i].operator == filter_op(wire.filters@[i].operator@)
            && options@.filters[i].value == wire.filters@[i].value,
        options@.sort.len() == wire.sort@.len(),
        0 <= i < wire.sort@.len() ==> options@.sort[i].field == wire.sort@[i].field@
            && options@.sort[i].desc == wire.sort@[i].desc,
        options@.limit == wire.limit,
        options@.offset == wire.offset,
        read@.len() == filters@.len(),
        0 <= i < filters@.len() ==> read@[i].field@ == filters@[i].field@ && read@[i].operator
            == filter_op(filters@[i].operator@) && read@[i].value == filters@[i].value,
{
    let views = crate::wire::filters_view(read@);
    assert(views == crate::wire::filters_meaning(filters@));
    assert(views.len() == read@.len());
    if 0 <= i < filters@.len() {
        assert(views[i] == read@[i]@);
        assert(views[i] == filters@[i].meaning());
    }
}

/// The results that the runtime makes are what their names say.
pub proof fn results_are_made_as_named(
    data: Vec<u8>,
    code: &str,
    text: String,
    head: &str,
    tail: &str,
    responded: Result_,
    empty: Result_,
    going_on: Result_,
    failed: Result_,
    joined: Result_,
    told: Result_,
    written: Result_,
    unwritten: Result_,
    logged: Result_,
)
    requires
        call_ensures(ok_respond, (data,), responded),
        call_ensures(ok_empty, (), empty),
        call_ensures(ok_continue, (), going_on),
        call_ensures(err_result, (code, text), failed),
        call_ensures(err_joined, (code, head, tail), joined),
        call_ensures(text_respond, (head,), told),
        call_ensures(json_respond, (Ok(data),), written),
        call_ensures(json_respond, (Err(text),), unwritten),
        call_ensures(Step::logged, (), logged),
    ensures
        is_response(StepView::Done(responded@), data@),
        is_response(StepView::Done(empty@), Seq::empty()),
        is_going_on(StepView::Done(going_on@)),
        is_error(StepView::Done(failed@), code@, text@),
        is_error(StepView::Done(joined@), code@, head@ + tail@),
        is_response(StepView::Done(told@), encode_utf8(head@)),
        is_response(StepView::Done(written@), data@),
        is_error(
            StepView::Done(unwritten@),
            "internal"@,
            "failed to serialize response: "@ + text@,
        ),
        is_going_on(StepView::Done(logged@)),
{
}

/// Failures of the database and the storage are told by their code and text.
pub proof fn failures_are_told(
    text: String,
    database: DatabaseError,
    storage: StorageError,
    d: Result_,
    s: Result_,
)
    requires
        call_ensures(db_err, (database,), d),
        call_ensures(storage_err, (storage,), s),
    ensures
        database is NotFound ==> is_error(
            StepView::Done(d@),
            "not_found"@,
            "record not found"@,
        ),
        database == DatabaseError::Internal(text) || database == DatabaseError::Other(text)
            ==> is_error(StepView::Done(d@), "internal"@, text@),
        storage is NotFound ==> is_error(StepView::Done(s@), "not_found"@, "object not found"@),
        storage == StorageError::Internal(text) || storage == StorageError::Other(text)
            ==> is_error(StepView::Done(s@), "internal"@, text@),
{
}

/// What the database came back with is told as it is said of its outcome.
pub proof fn database_replies_tell_the_outcome(
    record: Result<Record, DatabaseError>,
    page: Result<RecordList, DatabaseError>,
    rows: Result<Vec<Record>, DatabaseError>,
    number: Result<i64, DatabaseError>,
    nothing: Result<(), DatabaseError>,
    r: (Step, Step, Step, Step, Step),
)
    requires
        call_ensures(record_reply, (record,), r.0),
        call_ensures(page_reply, (page,), r.1),
        call_ensures(rows_reply, (rows,), r.2),
        call_ensures(number_reply, (number,), r.3),
        call_ensures(deleted_reply, (nothing,), r.4),
    ensures
        r.0@ == database_reply(DatabaseOutcome::Record(record)),
        r.1@ == database_reply(DatabaseOutcome::Page(page)),
        r.2@ == database_reply(DatabaseOutcome::Rows(rows)),
        r.3@ == database_reply(DatabaseOutcome::Number(number)),
        r.4@ == database_reply(DatabaseOutcome::Nothing(nothing)),
{
}

/// What the storage, the cryptography, the network and the configuration came
/// back with is told as it is said of their outcomes.
pub proof fn other_replies_tell_the_outcome(
    nothing: Result<(), StorageError>,
    object: Result<(Vec<u8>, ObjectInfo), StorageError>,
    objects: Result<ObjectList, StorageError>,
    text: Result<String, CryptoError>,
    compared: Result<(), CryptoError>,
    claims: Result<HashMap<String, serde_json::Value>, CryptoError>,
    bytes: Result<Vec<u8>, CryptoError>,
    response: Result<NetworkResponse, NetworkError>,
    r: (Step, Step, Step),
    s: (Step, Step, Step, Step),
    t: Step,
)
    requires
        call_ensures(stored_reply, (nothing,), r.0),
        call_ensures(object_reply, (object,), r.1),
        call_ensures(objects_reply, (objects,), r.2),
        call_ensures(text_reply, (text,), s.0),
        call_ensures(compare_reply, (compared,), s.1),
        call_ensures(claims_reply, (claims,), s.2),
        call_ensures(bytes_reply, (bytes,), s.3),
        call_ensures(network_reply, (response,), t),
    ensures
        r.0@ == storage_reply(StorageOutcome::Nothing(nothing)),
        r.1@ == storage_reply(StorageOutcome::Object(object)),
        r.2@ == storage_reply(StorageOutcome::Page(objects)),
        s.0@ == crypto_reply(CryptoOutcome::Text(text)),
        s.1@ == crypto_reply(CryptoOutcome::Nothing(compared)),
        s.2@ == crypto_reply(CryptoOutcome::Claims(claims)),
        s.3@ == crypto_reply(CryptoOutcome::Bytes(bytes)),
        t@ == network_reply_step(response),
{
}

/// A key that is looked up is answered with its value, or found missing.
pub proof fn look_ups_are_told(key: &str, value: Option<&str>, r: Step)
    requires
        call_ensures(config_reply, (key, value), r),
    ensures
        value is Some ==> is_response(r@, encode_utf8(value->0@)),
        value is None ==> is_error(r@, "not_found"@, "config key not found: "@ + key@),
{
}

/// Messages give their metadata, and errors hold what they are made of and hand
/// the message back.
pub proof fn messages_give_and_report(
    msg: &Message,
    key: &str,
    value: &str,
    owned: Message,
    code: &str,
    text: String,
    error: WaferError,
    result: Result_,
)
    requires
        call_ensures(Message::get_meta, (msg, key), value),
        call_ensures(WaferError::new, (code, text), error),
        call_ensures(Message::err, (owned, error), result),
    ensures
        stands_under(msg@, key@, value@),
        error.code@ == code@,
        error.message@ == text@,
        error.meta@ == Map::<Seq<char>, Seq<char>>::empty(),
        result@.action == Action::Error,
        result@.response is None,
        result@.error == Some(error@),
        result@.message == Some(owned@),
{
    assert(error@.code == error.code@ && error@.message == error.message@ && error@.meta
        == error.meta@);
}

} // verus!
