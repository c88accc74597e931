//! Carrying out the commands that guests give to the platform services.
use vstd::prelude::*;
use vstd::utf8::encode_utf8;

use crate::command::{Command, CryptoCommand, DatabaseCommand, StorageCommand};
use crate::context::{config_value, RuntimeContext};
use crate::decimal::{parse_i64, parse_u64, parse_usize, parsed_i64, parsed_unsigned};
use crate::json::{
    error_text, kind_of, parse_object, parsed_object, value_bytes, value_kind, value_to_vec, Kind,
    KindView,
};
use crate::results::{err_joined, err_result, ok_empty};
use crate::meta::Meta;
use crate::services::config::{ConfigCall, ConfigRequest, ConfigService};
use crate::services::crypto::{CryptoCall, CryptoOutcome, CryptoRequest, CryptoService};
use crate::services::database::{
    DatabaseCall, DatabaseOutcome, DatabaseRequest, DatabaseService, Filter, FilterView,
    ListOptionsView,
};
use crate::services::network::{NetworkError, NetworkService, Request, RequestView, Response};
use crate::services::storage::{
    ListOptions as StorageListOptions, ListOptionsView as StorageListOptionsView, StorageCall,
    StorageOutcome, StorageRequest, StorageService,
};
use crate::services::{configured, Configured, ServiceCall, ServiceCallView, Services};
use crate::step::{
    bytes_reply, claims_reply, compare_reply, config_reply, config_reply_step, crypto_reply,
    database_reply, deleted_reply, network_reply, network_reply_step, number_reply, object_reply,
    objects_reply, page_reply, record_reply, rows_reply, storage_reply, stored_reply, text_reply,
    Decode, DecodeView, LogLine, LogLineView, Severity, Step, StepView,
};
use crate::text::{
    after_prefix, copy_bytes, strip_prefix, text_eq, text_lossy, utf8_bytes, utf8_lossy,
};
use crate::types::{Message, MessageView, ResultView};
use crate::wire::{
    filters_meaning, filters_view, into_filters, RawQuery, WireFilter, WireListOptions,
    WireNetworkRequest,
};

verus! {

/// The refusal of a command whose service is not configured.
pub open spec fn unavailable(message: Seq<char>) -> StepView {
    StepView::failed("unavailable"@, message)
}

/// The refusal of a command whose bytes could not be read.
pub open spec fn invalid(complaint: Seq<char>, text: Seq<char>) -> StepView {
    StepView::failed("invalid_argument"@, complaint + text)
}

/// Whether an outcome is of the form that a database call has.
pub open spec fn database_fits(call: DatabaseCall, outcome: DatabaseOutcome) -> bool {
    match call {
        DatabaseCall::Get { .. } => outcome is Record,
        DatabaseCall::List { .. } => outcome is Page,
        DatabaseCall::Create { .. } => outcome is Record,
        DatabaseCall::Update { .. } => outcome is Record,
        DatabaseCall::Delete { .. } => outcome is Nothing,
        DatabaseCall::Count { .. } => outcome is Number,
        DatabaseCall::QueryRaw { .. } => outcome is Rows,
        DatabaseCall::ExecRaw { .. } => outcome is Number,
    }
}

/// Whether `step` answers what the database may come back with when it is
/// asked this.
pub open spec fn database_asked(
    services: Services,
    call: DatabaseCall,
    step: StepView,
) -> bool {
    exists|outcome: DatabaseOutcome| #[trigger]
        services.database->0.may_answer(call, outcome) && database_fits(call, outcome) && step == database_reply(
            outcome,
        )
}

/// Whether an outcome is of the form that a storage call has.
pub open spec fn storage_fits(call: StorageCall, outcome: StorageOutcome) -> bool {
    match call {
        StorageCall::Put { .. } => outcome is Nothing,
        StorageCall::Get { .. } => outcome is Object,
        StorageCall::Delete { .. } => outcome is Nothing,
        StorageCall::List { .. } => outcome is Page,
    }
}

/// Whether `step` answers what the storage may come back with when it is asked
/// this.
pub open spec fn storage_asked(
    services: Services,
    call: StorageCall,
    step: StepView,
) -> bool {
    exists|outcome: StorageOutcome| #[trigger]
        services.storage->0.may_answer(call, outcome) && storage_fits(call, outcome) && step == storage_reply(
            outcome,
        )
}

/// Whether an outcome is of the form that a cryptographic call has.
pub open spec fn crypto_fits(call: CryptoCall, outcome: CryptoOutcome) -> bool {
    match call {
        CryptoCall::Hash { .. } => outcome is Text,
        CryptoCall::CompareHash { .. } => outcome is Nothing,
        CryptoCall::Sign { .. } => outcome is Text,
        CryptoCall::Verify { .. } => outcome is Claims,
        CryptoCall::RandomBytes { .. } => outcome is Bytes,
    }
}

/// Whether `step` answers what the cryptography may come back with when it is
/// asked this.
pub open spec fn crypto_asked(
    services: Services,
    call: CryptoCall,
    step: StepView,
) -> bool {
    exists|outcome: CryptoOutcome| #[trigger]
        services.crypto->0.may_answer(call, outcome) && crypto_fits(call, outcome) && step == crypto_reply(
            outcome,
        )
}

/// Whether `step` answers what the network may come back with when it is sent
/// this.
pub open spec fn network_asked(
    services: Services,
    request: RequestView,
    step: StepView,
) -> bool {
    exists|outcome: Result<Response, NetworkError>| #[trigger]
        services.network->0.may_answer(request, outcome) && step == network_reply_step(outcome)
}

/// The step that calls the database.
pub open spec fn calls_database(call: DatabaseCall) -> StepView {
    StepView::Call(ServiceCallView::Database(call))
}

/// The step that calls the storage.
pub open spec fn calls_storage(call: StorageCall) -> StepView {
    StepView::Call(ServiceCallView::Storage(call))
}

/// The step that calls the cryptography.
pub open spec fn calls_crypto(call: CryptoCall) -> StepView {
    StepView::Call(ServiceCallView::Crypto(call))
}

/// The step that a database command leads to.
pub open spec fn database_step(command: DatabaseCommand, msg: MessageView) -> StepView {
    let collection = msg.get_meta("collection"@);
    let id = msg.get_meta("id"@);
    match command {
        DatabaseCommand::Get => calls_database(DatabaseCall::Get { collection, id }),
        DatabaseCommand::List => if msg.data.len() == 0 {
            calls_database(DatabaseCall::List { collection, options: ListOptionsView::plain() })
        } else {
            StepView::Decode(DecodeView::ListOptions { collection })
        },
        DatabaseCommand::Create => match parsed_object(msg.data) {
            Ok(data) => calls_database(DatabaseCall::Create { collection, data }),
            Err(text) => invalid("invalid record data: "@, text),
        },
        DatabaseCommand::Update => match parsed_object(msg.data) {
            Ok(data) => calls_database(DatabaseCall::Update { collection, id, data }),
            Err(text) => invalid("invalid record data: "@, text),
        },
        DatabaseCommand::Delete => calls_database(DatabaseCall::Delete { collection, id }),
        DatabaseCommand::Count => if msg.data.len() == 0 {
            calls_database(DatabaseCall::Count { collection, filters: Seq::empty() })
        } else {
            StepView::Decode(DecodeView::Filters { collection })
        },
        DatabaseCommand::QueryRaw => StepView::Decode(DecodeView::Query),
        DatabaseCommand::ExecRaw => StepView::Decode(DecodeView::Statement),
    }
}

/// The content type of an object that comes without one.
pub open spec fn content_type_or_default(given: Seq<char>) -> Seq<char> {
    if given.len() == 0 {
        "application/octet-stream"@
    } else {
        given
    }
}

/// The step that a storage command leads to.
pub open spec fn storage_step(command: StorageCommand, msg: MessageView) -> StepView {
    let bucket = msg.get_meta("bucket"@);
    let key = msg.get_meta("key"@);
    match command {
        StorageCommand::Put => calls_storage(
            StorageCall::Put {
                bucket,
                key,
                data: msg.data,
                content_type: content_type_or_default(msg.get_meta("content_type"@)),
            },
        ),
        StorageCommand::Get => calls_storage(StorageCall::Get { bucket, key }),
        StorageCommand::Delete => calls_storage(StorageCall::Delete { bucket, key }),
        StorageCommand::List => calls_storage(
            StorageCall::List {
                bucket,
                options: StorageListOptionsView {
                    prefix: msg.get_meta("prefix"@),
                    limit: match parsed_i64(msg.get_meta("limit"@)) {
                        Some(limit) => limit,
                        None => 1000,
                    },
                    offset: match parsed_i64(msg.get_meta("offset"@)) {
                        Some(offset) => offset,
                        None => 0,
                    },
                },
            },
        ),
    }
}

/// The step that a cryptographic command leads to.
pub open spec fn crypto_step(command: CryptoCommand, msg: MessageView) -> StepView {
    let text = utf8_lossy(msg.data);
    match command {
        CryptoCommand::Hash => calls_crypto(CryptoCall::Hash { password: text }),
        CryptoCommand::CompareHash => calls_crypto(
            CryptoCall::CompareHash { password: text, hash: msg.get_meta("hash"@) },
        ),
        CryptoCommand::Sign => match parsed_object(msg.data) {
            Ok(claims) => calls_crypto(
                CryptoCall::Sign {
                    claims,
                    expiry_secs: match parsed_unsigned(msg.get_meta("expiry"@), u64::MAX as int) {
                        Some(secs) => secs as int,
                        None => 86400,
                    },
                },
            ),
            Err(text) => invalid("invalid claims JSON: "@, text),
        },
        CryptoCommand::Verify => calls_crypto(CryptoCall::Verify { token: text }),
        CryptoCommand::RandomBytes => calls_crypto(
            CryptoCall::RandomBytes {
                length: match parsed_unsigned(msg.get_meta("length"@), usize::MAX as int) {
                    Some(length) => length as int,
                    None => 32,
                },
            },
        ),
    }
}

/// The line that a log command writes. A level that is none of the four is
/// logged as information and shown.
pub open spec fn logger_line(level: Seq<char>, message: Seq<char>) -> LogLineView {
    if level == "debug"@ {
        LogLineView { severity: Severity::Debug, level: None, message }
    } else if level == "info"@ {
        LogLineView { severity: Severity::Info, level: None, message }
    } else if level == "warn"@ {
        LogLineView { severity: Severity::Warn, level: None, message }
    } else if level == "error"@ {
        LogLineView { severity: Severity::Error, level: None, message }
    } else {
        LogLineView { severity: Severity::Info, level: Some(level), message }
    }
}

/// The step that a command leads to, given which services are configured.
/// Without a configuration service a key is looked up in the node configuration.
pub open spec fn planned(
    configured: Configured,
    node_config: Map<Seq<char>, Seq<char>>,
    svc_kind: Seq<char>,
    msg: MessageView,
) -> StepView {
    let key = msg.get_meta("key"@);
    match Command::named(svc_kind) {
        Command::Database(command) => if configured.database {
            database_step(command, msg)
        } else {
            unavailable("database service not configured"@)
        },
        Command::Storage(command) => if configured.storage {
            storage_step(command, msg)
        } else {
            unavailable("storage service not configured"@)
        },
        Command::Crypto(command) => if configured.crypto {
            crypto_step(command, msg)
        } else {
            unavailable("crypto service not configured"@)
        },
        Command::NetworkDo => if configured.network {
            StepView::Decode(DecodeView::NetworkRequest)
        } else {
            unavailable("network service not configured"@)
        },
        Command::Logger => StepView::Log(
            logger_line(after_prefix(svc_kind, "logger."@)->0, utf8_lossy(msg.data)),
        ),
        Command::ConfigGet => if configured.config {
            StepView::Call(ServiceCallView::Config(ConfigCall::Read { key }))
        } else {
            config_reply_step(key, config_value(node_config, key))
        },
        Command::ConfigSet => if configured.config {
            StepView::Call(
                ServiceCallView::Config(ConfigCall::Write { key, value: utf8_lossy(msg.data) }),
            )
        } else {
            unavailable("config service not configured"@)
        },
        Command::Unknown => unavailable("unknown service capability: svc."@ + svc_kind),
    }
}

/// The step that a service message leads to in a context.
pub open spec fn dispatched(
    context: RuntimeContext,
    svc_kind: Seq<char>,
    msg: MessageView,
) -> StepView {
    match context.platform_services {
        Some(services) => planned(configured(*services), context.config@, svc_kind, msg),
        None => unavailable("platform services not configured"@),
    }
}

/// Whether `step` answers what the configuration may come back with when it is
/// asked this.
pub open spec fn config_asked(services: Services, call: ConfigCall, step: StepView) -> bool {
    match call {
        ConfigCall::Read { key } => exists|value: Option<Seq<char>>| #[trigger]
            services.config->0.may_hold(key, value) && step == config_reply_step(key, value),
        ConfigCall::Write { key, value } => services.config->0.was_told(key, value) && step
            == StepView::Done(ResultView::respond(Seq::empty())),
    }
}

/// Whether `step` is what a call leads to in a context: the service is asked
/// just this, and the step answers what it came back with.
pub open spec fn performed(
    context: RuntimeContext,
    call: ServiceCallView,
    step: StepView,
) -> bool {
    match context.platform_services {
        Some(services) => match call {
            ServiceCallView::Database(call) => if services.database is Some {
                database_asked(*services, call, step)
            } else {
                step == unavailable("database service not configured"@)
            },
            ServiceCallView::Storage(call) => if services.storage is Some {
                storage_asked(*services, call, step)
            } else {
                step == unavailable("storage service not configured"@)
            },
            ServiceCallView::Crypto(call) => if services.crypto is Some {
                crypto_asked(*services, call, step)
            } else {
                step == unavailable("crypto service not configured"@)
            },
            ServiceCallView::Network(request) => if services.network is Some {
                network_asked(*services, request, step)
            } else {
                step == unavailable("network service not configured"@)
            },
            ServiceCallView::Config(call) => if services.config is Some {
                config_asked(*services, call, step)
            } else {
                step == unavailable("config service not configured"@)
            },
        },
        None => step == unavailable("platform services not configured"@),
    }
}

/// Plans a database command.
fn plan_database(command: DatabaseCommand, msg: &Message) -> (r: Step)
    ensures
        r@ == database_step(command, msg@),
{
    let collection = msg.get_meta("collection").to_owned();
    let id = msg.get_meta("id").to_owned();
    let request = match command {
        DatabaseCommand::Get => DatabaseRequest::Get { collection, id },
        DatabaseCommand::List => {
            if !msg.data.is_empty() {
                return Step::Decode(Decode::ListOptions { collection });
            }
            DatabaseRequest::List { collection, options: Default::default() }
        },
        DatabaseCommand::Create => match parse_object(msg.data.as_slice()) {
            Ok(data) => DatabaseRequest::Create { collection, data },
            Err(e) => return refuse_bytes("invalid record data: ", error_text(&e)),
        },
        DatabaseCommand::Update => match parse_object(msg.data.as_slice()) {
            Ok(data) => DatabaseRequest::Update { collection, id, data },
            Err(e) => return refuse_bytes("invalid record data: ", error_text(&e)),
        },
        DatabaseCommand::Delete => DatabaseRequest::Delete { collection, id },
        DatabaseCommand::Count => {
            if !msg.data.is_empty() {
                return Step::Decode(Decode::Filters { collection });
            }
            let filters: Vec<Filter> = Vec::new();
            assert(filters@.map_values(|f: Filter| f@) =~= Seq::<FilterView>::empty());
            DatabaseRequest::Count { collection, filters }
        },
        DatabaseCommand::QueryRaw => return Step::Decode(Decode::Query),
        DatabaseCommand::ExecRaw => return Step::Decode(Decode::Statement),
    };
    Step::Call(ServiceCall::Database(request))
}

/// Plans a storage command.
fn plan_storage(command: StorageCommand, msg: &Message) -> (r: Step)
    ensures
        r@ == storage_step(command, msg@),
{
    let bucket = msg.get_meta("bucket").to_owned();
    let key = msg.get_meta("key").to_owned();
    let request = match command {
        StorageCommand::Put => {
            let given = msg.get_meta("content_type");
            let content_type = if given.is_empty() {
                "application/octet-stream"
            } else {
                given
            };
            StorageRequest::Put {
                bucket,
                key,
                data: copy_bytes(msg.data.as_slice()),
                content_type: content_type.to_owned(),
            }
        },
        StorageCommand::Get => StorageRequest::Get { bucket, key },
        StorageCommand::Delete => StorageRequest::Delete { bucket, key },
        StorageCommand::List => {
            let limit: i64 = match parse_i64(msg.get_meta("limit")) {
                Some(limit) => limit,
                None => 1000,
            };
            let offset: i64 = match parse_i64(msg.get_meta("offset")) {
                Some(offset) => offset,
                None => 0,
            };
            let options = StorageListOptions {
                prefix: msg.get_meta("prefix").to_owned(),
                limit,
                offset,
            };
            StorageRequest::List { bucket, options }
        },
    };
    Step::Call(ServiceCall::Storage(request))
}

/// Plans a cryptographic command.
fn plan_crypto(command: CryptoCommand, msg: &Message) -> (r: Step)
    ensures
        r@ == crypto_step(command, msg@),
{
    let request = match command {
        CryptoCommand::Hash => CryptoRequest::Hash { password: text_lossy(msg.data.as_slice()) },
        CryptoCommand::CompareHash => CryptoRequest::CompareHash {
            password: text_lossy(msg.data.as_slice()),
            hash: msg.get_meta("hash").to_owned(),
        },
        CryptoCommand::Sign => match parse_object(msg.data.as_slice()) {
            Ok(claims) => {
                let expiry_secs: u64 = match parse_u64(msg.get_meta("expiry")) {
                    Some(secs) => secs,
                    None => 86400,
                };
                CryptoRequest::Sign { claims, expiry_secs }
            },
            Err(e) => return refuse_bytes("invalid claims JSON: ", error_text(&e)),
        },
        CryptoCommand::Verify => CryptoRequest::Verify { token: text_lossy(msg.data.as_slice()) },
        CryptoCommand::RandomBytes => {
            let length: usize = match parse_usize(msg.get_meta("length")) {
                Some(length) => length,
                None => 32,
            };
            CryptoRequest::RandomBytes { length }
        },
    };
    Step::Call(ServiceCall::Crypto(request))
}

/// Plans a command. No service is at hand here, so none is reached: what is to
/// be asked of one is in the step.
pub fn plan_command(
    configured: Configured,
    node_config: &Meta,
    svc_kind: &str,
    msg: &Message,
) -> (r: Step)
    ensures
        r@ == planned(configured, node_config@, svc_kind@, msg@),
{
    match Command::parse(svc_kind) {
        Command::Database(command) => if configured.database {
            plan_database(command, msg)
        } else {
            refuse("database service not configured")
        },
        Command::Storage(command) => if configured.storage {
            plan_storage(command, msg)
        } else {
            refuse("storage service not configured")
        },
        Command::Crypto(command) => if configured.crypto {
            plan_crypto(command, msg)
        } else {
            refuse("crypto service not configured")
        },
        Command::NetworkDo => if configured.network {
            Step::Decode(Decode::NetworkRequest)
        } else {
            refuse("network service not configured")
        },
        Command::Logger => {
            let level = match strip_prefix(svc_kind, "logger.") {
                Some(level) => level,
                None => svc_kind,
            };
            Step::Log(run_logger(level, text_lossy(msg.data.as_slice())))
        },
        Command::ConfigGet => {
            let key = msg.get_meta("key");
            if configured.config {
                Step::Call(ServiceCall::Config(ConfigRequest::Read { key: key.to_owned() }))
            } else {
                match node_config.get(key) {
                    Some(value) => config_reply(key, Some(value.as_str())),
                    None => config_reply(key, None),
                }
            }
        },
        Command::ConfigSet => if configured.config {
            let key = msg.get_meta("key").to_owned();
            let value = text_lossy(msg.data.as_slice());
            Step::Call(ServiceCall::Config(ConfigRequest::Write { key, value }))
        } else {
            refuse("config service not configured")
        },
        Command::Unknown => Step::Done(
            err_joined("unavailable", "unknown service capability: svc.", svc_kind),
        ),
    }
}

/// Calls the database.
fn perform_database(services: &Services, request: DatabaseRequest) -> (r: Step)
    ensures
        if services.database is Some {
            database_asked(*services, request@, r@)
        } else {
            r@ == unavailable("database service not configured"@)
        },
{
    let db = match &services.database {
        Some(db) => db,
        None => return refuse("database service not configured"),
    };
    match request {
        DatabaseRequest::Get { collection, id } => record_reply(
            db.get(collection.as_str(), id.as_str()),
        ),
        DatabaseRequest::List { collection, options } => page_reply(
            db.list(collection.as_str(), &options),
        ),
        DatabaseRequest::Create { collection, data } => record_reply(
            db.create(collection.as_str(), data),
        ),
        DatabaseRequest::Update { collection, id, data } => record_reply(
            db.update(collection.as_str(), id.as_str(), data),
        ),
        DatabaseRequest::Delete { collection, id } => deleted_reply(
            db.delete(collection.as_str(), id.as_str()),
        ),
        DatabaseRequest::Count { collection, filters } => number_reply(
            db.count(collection.as_str(), &filters),
        ),
        DatabaseRequest::QueryRaw { query, args } => rows_reply(
            db.query_raw(query.as_str(), &args),
        ),
        DatabaseRequest::ExecRaw { query, args } => number_reply(
            db.exec_raw(query.as_str(), &args),
        ),
    }
}

/// Calls the storage.
fn perform_storage(services: &Services, request: StorageRequest) -> (r: Step)
    ensures
        if services.storage is Some {
            storage_asked(*services, request@, r@)
        } else {
            r@ == unavailable("storage service not configured"@)
        },
{
    let storage = match &services.storage {
        Some(storage) => storage,
        None => return refuse("storage service not configured"),
    };
    match request {
        StorageRequest::Put { bucket, key, data, content_type } => stored_reply(
            storage.put(bucket.as_str(), key.as_str(), data.as_slice(), content_type.as_str()),
        ),
        StorageRequest::Get { bucket, key } => object_reply(
            storage.get(bucket.as_str(), key.as_str()),
        ),
        StorageRequest::Delete { bucket, key } => stored_reply(
            storage.delete(bucket.as_str(), key.as_str()),
        ),
        StorageRequest::List { bucket, options } => objects_reply(
            storage.list(bucket.as_str(), &options),
        ),
    }
}

/// Calls the cryptography.
fn perform_crypto(services: &Services, request: CryptoRequest) -> (r: Step)
    ensures
        if services.crypto is Some {
            crypto_asked(*services, request@, r@)
        } else {
            r@ == unavailable("crypto service not configured"@)
        },
{
    let crypto = match &services.crypto {
        Some(crypto) => crypto,
        None => return refuse("crypto service not configured"),
    };
    match request {
        CryptoRequest::Hash { password } => text_reply(crypto.hash(password.as_str())),
        CryptoRequest::CompareHash { password, hash } => compare_reply(
            crypto.compare_hash(password.as_str(), hash.as_str()),
        ),
        CryptoRequest::Sign { claims, expiry_secs } => text_reply(
            crypto.sign(claims, expiry_secs),
        ),
        CryptoRequest::Verify { token } => claims_reply(crypto.verify(token.as_str())),
        CryptoRequest::RandomBytes { length } => bytes_reply(crypto.random_bytes(length)),
    }
}

/// Calls the configuration.
fn perform_config(services: &Services, request: ConfigRequest) -> (r: Step)
    ensures
        if services.config is Some {
            config_asked(*services, request@, r@)
        } else {
            r@ == unavailable("config service not configured"@)
        },
{
    let config = match &services.config {
        Some(config) => config,
        None => return refuse("config service not configured"),
    };
    match request {
        ConfigRequest::Read { key } => match config.get(key.as_str()) {
            Some(value) => config_reply(key.as_str(), Some(value.as_str())),
            None => config_reply(key.as_str(), None),
        },
        ConfigRequest::Write { key, value } => {
            config.set(key.as_str(), value.as_str());
            Step::Done(ok_empty())
        },
    }
}

/// The line that a log command writes.
fn run_logger(level: &str, message: String) -> (r: LogLine)
    ensures
        r@ == logger_line(level@, message@),
{
    if text_eq(level, "debug") {
        LogLine { severity: Severity::Debug, level: None, message }
    } else if text_eq(level, "info") {
        LogLine { severity: Severity::Info, level: None, message }
    } else if text_eq(level, "warn") {
        LogLine { severity: Severity::Warn, level: None, message }
    } else if text_eq(level, "error") {
        LogLine { severity: Severity::Error, level: None, message }
    } else {
        LogLine { severity: Severity::Info, level: Some(level.to_owned()), message }
    }
}

/// The refusal of a command whose service is not configured.
fn refuse(message: &str) -> (r: Step)
    ensures
        r@ == unavailable(message@),
{
    Step::Done(err_result("unavailable", message.to_owned()))
}

/// The refusal of a command whose bytes could not be read.
fn refuse_bytes(complaint: &str, text: String) -> (r: Step)
    ensures
        r@ == invalid(complaint@, text@),
{
    Step::Done(err_joined("invalid_argument", complaint, text.as_str()))
}

/// What a network request as a guest writes it carries as its body: the UTF-8
/// bytes of a string, the document of an array or an object, and nothing else.
pub open spec fn request_body(body: Option<serde_json::Value>) -> Option<Seq<u8>> {
    match body {
        Some(value) => match value_kind(value) {
            KindView::Text(text) => Some(encode_utf8(text)),
            KindView::Array => Some(value_bytes(value)),
            KindView::Object => Some(value_bytes(value)),
            _ => None,
        },
        None => None,
    }
}

/// The request that a guest writes.
pub open spec fn request_meaning(wire: WireNetworkRequest) -> RequestView {
    RequestView {
        method: wire.method@,
        url: wire.url@,
        headers: wire.headers@,
        body: request_body(wire.body),
    }
}

/// The document of a value, empty where it cannot be written.
fn document_or_empty(value: &serde_json::Value) -> (r: Vec<u8>)
    ensures
        r@ == value_bytes(*value),
{
    match value_to_vec(value) {
        Ok(data) => data,
        Err(_) => Vec::new(),
    }
}

/// Reads a network request that a guest wrote.
pub fn into_request(wire: WireNetworkRequest) -> (r: Request)
    ensures
        r@ == request_meaning(wire),
{
    let body = match &wire.body {
        Some(value) => match kind_of(value) {
            Kind::Text(text) => Some(utf8_bytes(text.as_str())),
            Kind::Array => Some(document_or_empty(value)),
            Kind::Object => Some(document_or_empty(value)),
            _ => None,
        },
        None => None,
    };
    Request { method: wire.method, url: wire.url, headers: wire.headers, body }
}

/// The step that a database command leads to once its bytes are read.
pub open spec fn resumed_database(
    context: RuntimeContext,
    call: Result<DatabaseCall, Seq<char>>,
    complaint: Seq<char>,
) -> StepView {
    match context.platform_services {
        Some(services) => if services.database is Some {
            match call {
                Ok(call) => calls_database(call),
                Err(text) => invalid(complaint, text),
            }
        } else {
            unavailable("database service not configured"@)
        },
        None => unavailable("platform services not configured"@),
    }
}

/// The step that a network command leads to once its request is read.
pub open spec fn resumed_network(
    context: RuntimeContext,
    request: Result<RequestView, Seq<char>>,
) -> StepView {
    match context.platform_services {
        Some(services) => if services.network is Some {
            match request {
                Ok(request) => StepView::Call(ServiceCallView::Network(request)),
                Err(text) => invalid("invalid network request: "@, text),
            }
        } else {
            unavailable("network service not configured"@)
        },
        None => unavailable("platform services not configured"@),
    }
}

/// A database request, or the text of why there is none.
pub open spec fn request_view(request: Result<DatabaseRequest, String>) -> Result<
    DatabaseCall,
    Seq<char>,
> {
    match request {
        Ok(request) => Ok(request@),
        Err(text) => Err(text@),
    }
}

impl RuntimeContext {
    /// The step that the command of a service message leads to.
    pub fn dispatch_service(&self, svc_kind: &str, msg: &Message) -> (r: Step)
        ensures
            r@ == dispatched(*self, svc_kind@, msg@),
    {
        match &self.platform_services {
            Some(services) => plan_command(services.configured(), &self.config, svc_kind, msg),
            None => refuse("platform services not configured"),
        }
    }

    /// Makes a call of a service and answers what it came back with.
    pub fn perform(&self, call: ServiceCall) -> (r: Step)
        ensures
            performed(*self, call@, r@),
    {
        let services = match &self.platform_services {
            Some(services) => services,
            None => return refuse("platform services not configured"),
        };
        match call {
            ServiceCall::Database(request) => perform_database(services, request),
            ServiceCall::Storage(request) => perform_storage(services, request),
            ServiceCall::Crypto(request) => perform_crypto(services, request),
            ServiceCall::Network(request) => match &services.network {
                Some(network) => network_reply(network.do_request(&request)),
                None => refuse("network service not configured"),
            },
            ServiceCall::Config(request) => perform_config(services, request),
        }
    }

    /// Goes on with a database command once its bytes were read.
    fn resume_database(&self, request: Result<DatabaseRequest, String>, complaint: &str) -> (r:
        Step)
        ensures
            r@ == resumed_database(*self, request_view(request), complaint@),
    {
        let services = match &self.platform_services {
            Some(services) => services,
            None => return refuse("platform services not configured"),
        };
        if services.database.is_none() {
            return refuse("database service not configured");
        }
        match request {
            Ok(request) => Step::Call(ServiceCall::Database(request)),
            Err(text) => refuse_bytes(complaint, text),
        }
    }

    /// The step that lists records, once the options were read.
    pub fn list_records(&self, collection: &str, options: Result<WireListOptions, String>) -> (r:
        Step)
        ensures
            r@ == resumed_database(
                *self,
                match options {
                    Ok(wire) => Ok(
                        DatabaseCall::List { collection: collection@, options: wire.meaning() },
                    ),
                    Err(text) => Err(text@),
                },
                "invalid list options: "@,
            ),
    {
        let request = match options {
            Ok(wire) => Ok(
                DatabaseRequest::List {
                    collection: collection.to_owned(),
                    options: wire.into_list_options(),
                },
            ),
            Err(text) => Err(text),
        };
        self.resume_database(request, "invalid list options: ")
    }

    /// The step that counts records, once the filters were read.
    pub fn count_records(&self, collection: &str, filters: Result<Vec<WireFilter>, String>) -> (r:
        Step)
        ensures
            r@ == resumed_database(
                *self,
                match filters {
                    Ok(wire) => Ok(
                        DatabaseCall::Count {
                            collection: collection@,
                            filters: filters_meaning(wire@),
                        },
                    ),
                    Err(text) => Err(text@),
                },
                "invalid filters: "@,
            ),
    {
        let request = match filters {
            Ok(wire) => {
                let filters = into_filters(wire);
                assert(filters@.map_values(|f: Filter| f@) == filters_view(filters@));
                Ok(DatabaseRequest::Count { collection: collection.to_owned(), filters })
            },
            Err(text) => Err(text),
        };
        self.resume_database(request, "invalid filters: ")
    }

    /// The step that runs a query, once it was read.
    pub fn query_raw(&self, query: Result<RawQuery, String>) -> (r: Step)
        ensures
            r@ == resumed_database(
                *self,
                match query {
                    Ok(raw) => Ok(DatabaseCall::QueryRaw { query: raw.query@, args: raw.args@ }),
                    Err(text) => Err(text@),
                },
                "invalid query: "@,
            ),
    {
        let request = match query {
            Ok(raw) => Ok(DatabaseRequest::QueryRaw { query: raw.query, args: raw.args }),
            Err(text) => Err(text),
        };
        self.resume_database(request, "invalid query: ")
    }

    /// The step that runs a statement, once it was read.
    pub fn exec_raw(&self, statement: Result<RawQuery, String>) -> (r: Step)
        ensures
            r@ == resumed_database(
                *self,
                match statement {
                    Ok(raw) => Ok(DatabaseCall::ExecRaw { query: raw.query@, args: raw.args@ }),
                    Err(text) => Err(text@),
                },
                "invalid query: "@,
            ),
    {
        let request = match statement {
            Ok(raw) => Ok(DatabaseRequest::ExecRaw { query: raw.query, args: raw.args }),
            Err(text) => Err(text),
        };
        self.resume_database(request, "invalid query: ")
    }

    /// The step that sends a network request, once it was read.
    pub fn network_do(&self, request: Result<WireNetworkRequest, String>) -> (r: Step)
        ensures
            r@ == resumed_network(
                *self,
                match request {
                    Ok(wire) => Ok(request_meaning(wire)),
                    Err(text) => Err(text@),
                },
            ),
    {
        let services = match &self.platform_services {
            Some(services) => services,
            None => return refuse("platform services not configured"),
        };
        if services.network.is_none() {
            return refuse("network service not configured");
        }
        match request {
            Ok(wire) => Step::Call(ServiceCall::Network(into_request(wire))),
            Err(text) => refuse_bytes("invalid network request: ", text),
        }
    }
}

} // verus!
