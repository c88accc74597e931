use std::collections::HashMap;
use std::sync::atomic::{AtomicBool, Ordering};
use std::sync::{Arc, Mutex};
use std::time::{Duration, Instant};

use serde_json::Value;
use wafer::context::{decide_cancelled, RuntimeContext};
use wafer::dispatch::{into_request, plan_command};
use wafer::meta::Meta;
use wafer::results::json_respond;
use wafer::services::config::{ConfigRequest, ConfigService};
use wafer::services::crypto::{CryptoError, CryptoRequest, CryptoService};
use wafer::services::database::{
    DatabaseError, DatabaseRequest, DatabaseService, Filter, FilterOp, ListOptions, Record,
    RecordList,
};
use wafer::services::network::{Header, NetworkError, NetworkService, Request, Response};
use wafer::services::storage::{
    ListOptions as StorageListOptions, ObjectInfo, ObjectList, StorageError, StorageRequest,
    StorageService,
};
use wafer::services::{Configured, ServiceCall, Services};
use wafer::step::{Decode, Payload, Severity, Step};
use wafer::types::{Action, Message, Result_};
use wafer::wire::{
    parse_filter_op, RawQuery, WireFilter, WireListOptions, WireNetworkRequest, WireSortField,
};

type Calls = Arc<Mutex<Vec<String>>>;

/// Makes the call that a step asks for, if it asks for one.
trait Driven {
    fn settle(&self, step: Step) -> Step;
    fn run(&self, msg: &Message) -> Step;
    fn listed(&self, collection: &str, options: Result<WireListOptions, String>) -> Step;
    fn counted(&self, collection: &str, filters: Result<Vec<WireFilter>, String>) -> Step;
    fn queried(&self, query: Result<RawQuery, String>) -> Step;
    fn executed(&self, statement: Result<RawQuery, String>) -> Step;
    fn fetched(&self, request: Result<WireNetworkRequest, String>) -> Step;
}

impl Driven for RuntimeContext {
    fn settle(&self, step: Step) -> Step {
        match step {
            Step::Call(call) => self.perform(call),
            step => step,
        }
    }

    fn run(&self, msg: &Message) -> Step {
        self.settle(self.send(msg))
    }

    fn listed(&self, collection: &str, options: Result<WireListOptions, String>) -> Step {
        self.settle(self.list_records(collection, options))
    }

    fn counted(&self, collection: &str, filters: Result<Vec<WireFilter>, String>) -> Step {
        self.settle(self.count_records(collection, filters))
    }

    fn queried(&self, query: Result<RawQuery, String>) -> Step {
        self.settle(self.query_raw(query))
    }

    fn executed(&self, statement: Result<RawQuery, String>) -> Step {
        self.settle(self.exec_raw(statement))
    }

    fn fetched(&self, request: Result<WireNetworkRequest, String>) -> Step {
        self.settle(self.network_do(request))
    }
}

struct Db {
    calls: Calls,
    fail: Option<fn() -> DatabaseError>,
}

impl Db {
    fn note(&self, call: String) -> Result<(), DatabaseError> {
        self.calls.lock().unwrap().push(call);
        match self.fail {
            Some(fail) => Err(fail()),
            None => Ok(()),
        }
    }
}

fn record(id: &str) -> Record {
    Record { id: id.to_string(), data: HashMap::new() }
}

fn sorted(data: &HashMap<String, Value>) -> String {
    let mut fields: Vec<String> = data.iter().map(|(k, v)| format!("{}={}", k, v)).collect();
    fields.sort();
    fields.join(",")
}

fn shown(filters: &[Filter]) -> String {
    let all: Vec<String> =
        filters.iter().map(|f| format!("{} {:?} {}", f.field, f.operator, f.value)).collect();
    all.join(";")
}

impl DatabaseService for Db {
    fn get(&self, collection: &str, id: &str) -> Result<Record, DatabaseError> {
        self.note(format!("get {} {}", collection, id))?;
        Ok(record(id))
    }

    fn list(&self, collection: &str, options: &ListOptions) -> Result<RecordList, DatabaseError> {
        let sort: Vec<String> =
            options.sort.iter().map(|s| format!("{} {}", s.field, s.desc)).collect();
        self.note(format!(
            "list {} [{}] [{}] {} {}",
            collection,
            shown(&options.filters),
            sort.join(";"),
            options.limit,
            options.offset
        ))?;
        Ok(RecordList { records: vec![record("1"), record("2")], total_count: 2 })
    }

    fn create(
        &self,
        collection: &str,
        data: HashMap<String, Value>,
    ) -> Result<Record, DatabaseError> {
        self.note(format!("create {} {}", collection, sorted(&data)))?;
        Ok(Record { id: "new".to_string(), data })
    }

    fn update(
        &self,
        collection: &str,
        id: &str,
        data: HashMap<String, Value>,
    ) -> Result<Record, DatabaseError> {
        self.note(format!("update {} {} {}", collection, id, sorted(&data)))?;
        Ok(Record { id: id.to_string(), data })
    }

    fn delete(&self, collection: &str, id: &str) -> Result<(), DatabaseError> {
        self.note(format!("delete {} {}", collection, id))
    }

    fn count(&self, collection: &str, filters: &Vec<Filter>) -> Result<i64, DatabaseError> {
        self.note(format!("count {} [{}]", collection, shown(filters)))?;
        Ok(-42)
    }

    fn query_raw(&self, query: &str, args: &Vec<Value>) -> Result<Vec<Record>, DatabaseError> {
        self.note(format!("query {} {}", query, args.len()))?;
        Ok(vec![record("row")])
    }

    fn exec_raw(&self, query: &str, args: &Vec<Value>) -> Result<i64, DatabaseError> {
        self.note(format!("exec {} {}", query, args.len()))?;
        Ok(7)
    }
}

struct Storage {
    calls: Calls,
    fail: Option<fn() -> StorageError>,
}

impl Storage {
    fn note(&self, call: String) -> Result<(), StorageError> {
        self.calls.lock().unwrap().push(call);
        match self.fail {
            Some(fail) => Err(fail()),
            None => Ok(()),
        }
    }
}

impl StorageService for Storage {
    fn put(
        &self,
        bucket: &str,
        key: &str,
        data: &[u8],
        content_type: &str,
    ) -> Result<(), StorageError> {
        self.note(format!("put {} {} {:?} {}", bucket, key, data, content_type))
    }

    fn get(&self, bucket: &str, key: &str) -> Result<(Vec<u8>, ObjectInfo), StorageError> {
        self.note(format!("get {} {}", bucket, key))?;
        let info =
            ObjectInfo { key: key.to_string(), size: 3, content_type: "text/plain".to_string() };
        Ok((vec![1, 2, 3], info))
    }

    fn delete(&self, bucket: &str, key: &str) -> Result<(), StorageError> {
        self.note(format!("delete {} {}", bucket, key))
    }

    fn list(&self, bucket: &str, options: &StorageListOptions) -> Result<ObjectList, StorageError> {
        self.note(format!(
            "list {} {:?} {} {}",
            bucket, options.prefix, options.limit, options.offset
        ))?;
        Ok(ObjectList { objects: vec![], total_count: 0 })
    }
}

struct Crypto {
    calls: Calls,
    fail: Option<fn() -> CryptoError>,
}

impl Crypto {
    fn note(&self, call: String) -> Result<(), CryptoError> {
        self.calls.lock().unwrap().push(call);
        match self.fail {
            Some(fail) => Err(fail()),
            None => Ok(()),
        }
    }
}

impl CryptoService for Crypto {
    fn hash(&self, password: &str) -> Result<String, CryptoError> {
        self.note(format!("hash {}", password))?;
        Ok("h$é".to_string())
    }

    fn compare_hash(&self, password: &str, hash: &str) -> Result<(), CryptoError> {
        self.note(format!("compare {} {}", password, hash))
    }

    fn sign(&self, claims: HashMap<String, Value>, expiry_secs: u64) -> Result<String, CryptoError> {
        self.note(format!("sign {} {}", sorted(&claims), expiry_secs))?;
        Ok("token".to_string())
    }

    fn verify(&self, token: &str) -> Result<HashMap<String, Value>, CryptoError> {
        self.note(format!("verify {}", token))?;
        let mut claims = HashMap::new();
        claims.insert("sub".to_string(), Value::from("me"));
        claims.insert("exp".to_string(), Value::from(5));
        Ok(claims)
    }

    fn random_bytes(&self, length: usize) -> Result<Vec<u8>, CryptoError> {
        self.note(format!("random {}", length))?;
        Ok(vec![4; 4])
    }
}

struct Network {
    calls: Calls,
    fail: bool,
}

impl NetworkService for Network {
    fn do_request(&self, request: &Request) -> Result<Response, NetworkError> {
        let mut headers = request.headers.to_pairs();
        headers.sort();
        self.calls.lock().unwrap().push(format!(
            "{} {} {:?} {:?}",
            request.method, request.url, headers, request.body
        ));
        if self.fail {
            return Err(NetworkError { text: "no route".to_string() });
        }
        Ok(Response {
            status_code: 204,
            headers: vec![
                Header { name: "A".to_string(), values: vec!["1".to_string(), "2".to_string()] },
                Header { name: "B".to_string(), values: vec![] },
            ],
            body: b"foo".to_vec(),
        })
    }
}

struct Config {
    values: Mutex<HashMap<String, String>>,
}

impl ConfigService for Config {
    fn get(&self, key: &str) -> Option<String> {
        self.values.lock().unwrap().get(key).cloned()
    }

    fn set(&self, key: &str, value: &str) {
        self.values.lock().unwrap().insert(key.to_string(), value.to_string());
    }
}

fn calls() -> Calls {
    Arc::new(Mutex::new(Vec::new()))
}

fn context(services: Option<Services>) -> RuntimeContext {
    let mut config = Meta::new();
    config.insert("color".to_string(), "grün".to_string());
    RuntimeContext {
        chain_id: "chain".to_string(),
        node_id: "node".to_string(),
        config,
        cancelled: Arc::new(AtomicBool::new(false)),
        deadline: None,
        platform_services: services.map(Arc::new),
    }
}

fn with_db(calls: &Calls, fail: Option<fn() -> DatabaseError>) -> RuntimeContext {
    context(Some(Services {
        database: Some(Arc::new(Db { calls: calls.clone(), fail })),
        ..Default::default()
    }))
}

fn with_storage(calls: &Calls, fail: Option<fn() -> StorageError>) -> RuntimeContext {
    context(Some(Services {
        storage: Some(Arc::new(Storage { calls: calls.clone(), fail })),
        ..Default::default()
    }))
}

fn with_crypto(calls: &Calls, fail: Option<fn() -> CryptoError>) -> RuntimeContext {
    context(Some(Services {
        crypto: Some(Arc::new(Crypto { calls: calls.clone(), fail })),
        ..Default::default()
    }))
}

fn with_network(calls: &Calls, fail: bool) -> RuntimeContext {
    context(Some(Services {
        network: Some(Arc::new(Network { calls: calls.clone(), fail })),
        ..Default::default()
    }))
}

fn message(kind: &str, data: &[u8], meta: &[(&str, &str)]) -> Message {
    let mut pairs = Meta::new();
    for (key, value) in meta {
        pairs.insert(key.to_string(), value.to_string());
    }
    Message { kind: kind.to_string(), data: data.to_vec(), meta: pairs }
}

fn done(step: Step) -> Result_ {
    match step {
        Step::Done(result) => result,
        _ => panic!("the step is not done"),
    }
}

fn responded(step: Step) -> Vec<u8> {
    let result = done(step);
    assert_eq!(result.action, Action::Respond);
    assert!(result.error.is_none());
    assert!(result.message.is_none());
    let response = result.response.unwrap();
    assert!(response.meta.to_pairs().is_empty());
    response.data
}

fn failed(step: Step) -> (String, String) {
    let result = done(step);
    assert_eq!(result.action, Action::Error);
    assert!(result.response.is_none());
    assert!(result.message.is_none());
    let error = result.error.unwrap();
    (error.code, error.message)
}

fn refused(code: &str, message: &str) -> (String, String) {
    (code.to_string(), message.to_string())
}

fn last(calls: &Calls) -> String {
    calls.lock().unwrap().last().unwrap().clone()
}

const COLLECTION: (&str, &str) = ("collection", "users");
const ID: (&str, &str) = ("id", "u1");

#[test]
fn log_messages_are_logged_with_their_level() {
    let step = context(None).run(&message("log", b"hi \xff", &[("level", "warn")]));
    match step {
        Step::Log(line) => {
            assert_eq!(line.severity, Severity::Info);
            assert_eq!(line.level.as_deref(), Some("warn"));
            assert_eq!(line.message, "hi \u{fffd}");
        }
        _ => panic!("not logged"),
    }
    let result = Step::logged();
    assert_eq!(result.action, Action::Continue);
    assert!(result.response.is_none() && result.error.is_none() && result.message.is_none());
}

#[test]
fn the_node_configuration_is_looked_up() {
    let ctx = context(None);
    assert_eq!(
        responded(ctx.run(&message("config.get", b"", &[("key", "color")]))),
        "grün".as_bytes()
    );
    assert_eq!(
        failed(ctx.run(&message("config.get", b"", &[("key", "size")]))),
        refused("not_found", "config key not found: size")
    );
    assert_eq!(
        failed(ctx.run(&message("config.get", b"", &[]))),
        refused("not_found", "config key not found: ")
    );
    assert_eq!(ctx.config_get("color"), Some("grün"));
    assert_eq!(ctx.config_get("size"), None);
}

#[test]
fn unknown_kinds_are_refused() {
    let ctx = context(Some(Services::default()));
    assert_eq!(
        failed(ctx.run(&message("fly", b"", &[]))),
        refused("unavailable", "unknown capability: fly")
    );
    assert_eq!(
        failed(ctx.run(&message("svc", b"", &[]))),
        refused("unavailable", "unknown capability: svc")
    );
    assert_eq!(
        failed(ctx.run(&message("svc.fly", b"", &[]))),
        refused("unavailable", "unknown service capability: svc.fly")
    );
    assert_eq!(
        failed(ctx.run(&message("svc.logger", b"", &[]))),
        refused("unavailable", "unknown service capability: svc.logger")
    );
    assert_eq!(
        failed(ctx.run(&message("svc.", b"", &[]))),
        refused("unavailable", "unknown service capability: svc.")
    );
}

#[test]
fn without_platform_services_every_service_message_is_refused() {
    let ctx = context(None);
    for kind in ["svc.database.get", "svc.logger.info", "svc.config.get", "svc.fly"] {
        assert_eq!(
            failed(ctx.run(&message(kind, b"", &[]))),
            refused("unavailable", "platform services not configured")
        );
    }
    assert!(ctx.services().is_none());
}

#[test]
fn unconfigured_services_are_refused_by_name() {
    let ctx = context(Some(Services::default()));
    assert!(ctx.services().is_some());
    for (kind, service) in [
        ("database.get", "database"),
        ("database.list", "database"),
        ("database.create", "database"),
        ("database.update", "database"),
        ("database.delete", "database"),
        ("database.count", "database"),
        ("database.query_raw", "database"),
        ("database.exec_raw", "database"),
        ("storage.put", "storage"),
        ("storage.get", "storage"),
        ("storage.delete", "storage"),
        ("storage.list", "storage"),
        ("crypto.hash", "crypto"),
        ("crypto.compare_hash", "crypto"),
        ("crypto.sign", "crypto"),
        ("crypto.verify", "crypto"),
        ("crypto.random_bytes", "crypto"),
        ("network.do", "network"),
        ("config.set", "config"),
    ] {
        let expected = refused("unavailable", &format!("{} service not configured", service));
        assert_eq!(failed(ctx.dispatch_service(kind, &message("x", b"", &[]))), expected);
        assert_eq!(
            failed(ctx.run(&message(&format!("svc.{}", kind), b"", &[]))),
            expected
        );
    }
}

#[test]
fn records_are_fetched_and_removed() {
    let calls = calls();
    let ctx = with_db(&calls, None);
    match ctx.run(&message("svc.database.get", b"", &[COLLECTION, ID])) {
        Step::Encode(Payload::Record(found)) => assert_eq!(found.id, "u1"),
        _ => panic!("no record"),
    }
    assert_eq!(last(&calls), "get users u1");
    assert_eq!(responded(ctx.run(&message("svc.database.delete", b"", &[COLLECTION, ID]))), b"");
    assert_eq!(last(&calls), "delete users u1");
}

#[test]
fn records_are_created_and_updated() {
    let calls = calls();
    let ctx = with_db(&calls, None);
    match ctx.run(&message("svc.database.create", b"{\"a\":1,\"b\":[true]}", &[COLLECTION])) {
        Step::Encode(Payload::Record(made)) => {
            assert_eq!(made.data.get("a"), Some(&Value::from(1)))
        }
        _ => panic!("no record"),
    }
    assert_eq!(last(&calls), "create users a=1,b=[true]");
    match ctx.run(&message("svc.database.update", b"{\"a\":2}", &[COLLECTION, ID])) {
        Step::Encode(Payload::Record(made)) => assert_eq!(made.id, "u1"),
        _ => panic!("no record"),
    }
    assert_eq!(last(&calls), "update users u1 a=2");
}

#[test]
fn unreadable_records_are_refused() {
    let calls = calls();
    let ctx = with_db(&calls, None);
    for kind in ["svc.database.create", "svc.database.update"] {
        assert_eq!(
            failed(ctx.run(&message(kind, b"", &[COLLECTION, ID]))),
            refused(
                "invalid_argument",
                "invalid record data: EOF while parsing a value at line 1 column 0"
            )
        );
        let (code, text) = failed(ctx.run(&message(kind, b"[1]", &[COLLECTION, ID])));
        assert_eq!(code, "invalid_argument");
        assert!(text.starts_with("invalid record data: invalid type: sequence"), "{}", text);
    }
    assert!(calls.lock().unwrap().is_empty());
}

#[test]
fn records_are_listed_without_options() {
    let calls = calls();
    let ctx = with_db(&calls, None);
    match ctx.run(&message("svc.database.list", b"", &[COLLECTION])) {
        Step::Encode(Payload::Page(page)) => {
            assert_eq!(page.records.len(), 2);
            assert_eq!(page.total_count, 2);
        }
        _ => panic!("no page"),
    }
    assert_eq!(last(&calls), "list users [] [] 0 0");
}

#[test]
fn records_are_listed_with_options() {
    let calls = calls();
    let ctx = with_db(&calls, None);
    match ctx.run(&message("svc.database.list", b"{}", &[COLLECTION])) {
        Step::Decode(Decode::ListOptions { collection }) => assert_eq!(collection, "users"),
        _ => panic!("nothing to read"),
    }
    assert!(calls.lock().unwrap().is_empty());
    let options = WireListOptions {
        filters: vec![
            WireFilter {
                field: "age".to_string(),
                operator: "gte".to_string(),
                value: Value::from(18),
            },
            WireFilter {
                field: "name".to_string(),
                operator: "sounds_like".to_string(),
                value: Value::from("x"),
            },
        ],
        sort: vec![
            WireSortField { field: "age".to_string(), desc: true },
            WireSortField { field: "id".to_string(), desc: false },
        ],
        limit: 10,
        offset: -1,
    };
    match ctx.listed("users", Ok(options)) {
        Step::Encode(Payload::Page(page)) => assert_eq!(page.total_count, 2),
        _ => panic!("no page"),
    }
    assert_eq!(
        last(&calls),
        "list users [age GreaterEqual 18;name Equal \"x\"] [age true;id false] 10 -1"
    );
    assert_eq!(
        failed(ctx.listed("users", Err("bad".to_string()))),
        refused("invalid_argument", "invalid list options: bad")
    );
}

#[test]
fn records_are_counted() {
    let calls = calls();
    let ctx = with_db(&calls, None);
    assert_eq!(responded(ctx.run(&message("svc.database.count", b"", &[COLLECTION]))), b"-42");
    assert_eq!(last(&calls), "count users []");
    match ctx.run(&message("svc.database.count", b"[]", &[COLLECTION])) {
        Step::Decode(Decode::Filters { collection }) => assert_eq!(collection, "users"),
        _ => panic!("nothing to read"),
    }
    let filters = vec![WireFilter {
        field: "f".to_string(),
        operator: "in".to_string(),
        value: Value::from(vec![1, 2]),
    }];
    assert_eq!(responded(ctx.counted("users", Ok(filters))), b"-42");
    assert_eq!(last(&calls), "count users [f In [1,2]]");
    assert_eq!(
        failed(ctx.counted("users", Err("bad".to_string()))),
        refused("invalid_argument", "invalid filters: bad")
    );
}

fn raw() -> RawQuery {
    RawQuery { query: "SELECT ?".to_string(), args: vec![Value::Null, Value::from(1)] }
}

#[test]
fn queries_and_statements_are_run() {
    let calls = calls();
    let ctx = with_db(&calls, None);
    assert!(matches!(
        ctx.run(&message("svc.database.query_raw", b"", &[])),
        Step::Decode(Decode::Query)
    ));
    assert!(matches!(
        ctx.run(&message("svc.database.exec_raw", b"{}", &[])),
        Step::Decode(Decode::Statement)
    ));
    match ctx.queried(Ok(raw())) {
        Step::Encode(Payload::Rows(rows)) => assert_eq!(rows[0].id, "row"),
        _ => panic!("no rows"),
    }
    assert_eq!(last(&calls), "query SELECT ? 2");
    assert_eq!(responded(ctx.executed(Ok(raw()))), b"7");
    assert_eq!(last(&calls), "exec SELECT ? 2");
    assert_eq!(
        failed(ctx.queried(Err("bad".to_string()))),
        refused("invalid_argument", "invalid query: bad")
    );
    assert_eq!(
        failed(ctx.executed(Err("worse".to_string()))),
        refused("invalid_argument", "invalid query: worse")
    );
}

#[test]
fn resuming_without_the_service_is_refused() {
    let none = context(None);
    let empty = context(Some(Services::default()));
    let no_platform = refused("unavailable", "platform services not configured");
    let no_database = refused("unavailable", "database service not configured");
    let no_network = refused("unavailable", "network service not configured");
    let bad = || "bad".to_string();
    assert_eq!(failed(none.listed("c", Err(bad()))), no_platform);
    assert_eq!(failed(none.counted("c", Err(bad()))), no_platform);
    assert_eq!(failed(none.queried(Ok(raw()))), no_platform);
    assert_eq!(failed(none.executed(Ok(raw()))), no_platform);
    assert_eq!(failed(none.fetched(Err(bad()))), no_platform);
    assert_eq!(failed(empty.listed("c", Err(bad()))), no_database);
    assert_eq!(failed(empty.counted("c", Err(bad()))), no_database);
    assert_eq!(failed(empty.queried(Ok(raw()))), no_database);
    assert_eq!(failed(empty.executed(Ok(raw()))), no_database);
    assert_eq!(failed(empty.fetched(Err(bad()))), no_network);
}

#[test]
fn database_errors_are_reported() {
    let calls = calls();
    let get = message("svc.database.get", b"", &[COLLECTION, ID]);
    let missing = with_db(&calls, Some(|| DatabaseError::NotFound));
    assert_eq!(failed(missing.run(&get)), refused("not_found", "record not found"));
    assert_eq!(
        failed(missing.run(&message("svc.database.delete", b"", &[]))),
        refused("not_found", "record not found")
    );
    assert_eq!(
        failed(missing.run(&message("svc.database.list", b"", &[]))),
        refused("not_found", "record not found")
    );
    assert_eq!(failed(missing.queried(Ok(raw()))), refused("not_found", "record not found"));
    let broken = with_db(&calls, Some(|| DatabaseError::Internal("disk".to_string())));
    assert_eq!(failed(broken.run(&get)), refused("internal", "disk"));
    assert_eq!(
        failed(broken.run(&message("svc.database.count", b"", &[]))),
        refused("internal", "disk")
    );
    let other = with_db(&calls, Some(|| DatabaseError::Other("odd".to_string())));
    assert_eq!(failed(other.run(&get)), refused("internal", "odd"));
}

#[test]
fn filter_operators_have_names() {
    for (name, operator) in [
        ("eq", FilterOp::Equal),
        ("neq", FilterOp::NotEqual),
        ("gt", FilterOp::GreaterThan),
        ("gte", FilterOp::GreaterEqual),
        ("lt", FilterOp::LessThan),
        ("lte", FilterOp::LessEqual),
        ("like", FilterOp::Like),
        ("in", FilterOp::In),
        ("between", FilterOp::Equal),
        ("", FilterOp::Equal),
        ("GT", FilterOp::Equal),
    ] {
        assert_eq!(parse_filter_op(name), operator);
    }
}

#[test]
fn objects_are_stored_with_a_content_type() {
    let calls = calls();
    let ctx = with_storage(&calls, None);
    let place = [("bucket", "b"), ("key", "k")];
    assert_eq!(responded(ctx.run(&message("svc.storage.put", &[1, 2], &place))), b"");
    assert_eq!(last(&calls), "put b k [1, 2] application/octet-stream");
    let typed = [("bucket", "b"), ("key", "k"), ("content_type", "text/html")];
    assert_eq!(responded(ctx.run(&message("svc.storage.put", b"", &typed))), b"");
    assert_eq!(last(&calls), "put b k [] text/html");
    assert_eq!(responded(ctx.run(&message("svc.storage.get", b"", &place))), vec![1, 2, 3]);
    assert_eq!(last(&calls), "get b k");
    assert_eq!(responded(ctx.run(&message("svc.storage.delete", b"", &place))), b"");
    assert_eq!(last(&calls), "delete b k");
}

#[test]
fn objects_are_listed() {
    let calls = calls();
    let ctx = with_storage(&calls, None);
    let list = |meta: &[(&str, &str)]| match ctx.run(&message("svc.storage.list", b"", meta)) {
        Step::Encode(Payload::Objects(page)) => assert_eq!(page.total_count, 0),
        _ => panic!("no page"),
    };
    list(&[("bucket", "b")]);
    assert_eq!(last(&calls), "list b \"\" 1000 0");
    list(&[("bucket", "b"), ("prefix", "a/"), ("limit", "5"), ("offset", "-2")]);
    assert_eq!(last(&calls), "list b \"a/\" 5 -2");
    list(&[("bucket", "b"), ("limit", "five"), ("offset", "1.5")]);
    assert_eq!(last(&calls), "list b \"\" 1000 0");
}

#[test]
fn storage_errors_are_reported() {
    let calls = calls();
    let missing = with_storage(&calls, Some(|| StorageError::NotFound));
    for kind in ["svc.storage.put", "svc.storage.get", "svc.storage.delete", "svc.storage.list"] {
        assert_eq!(
            failed(missing.run(&message(kind, b"", &[]))),
            refused("not_found", "object not found")
        );
    }
    let broken = with_storage(&calls, Some(|| StorageError::Internal("disk".to_string())));
    assert_eq!(
        failed(broken.run(&message("svc.storage.get", b"", &[]))),
        refused("internal", "disk")
    );
    let other = with_storage(&calls, Some(|| StorageError::Other("odd".to_string())));
    assert_eq!(
        failed(other.run(&message("svc.storage.get", b"", &[]))),
        refused("internal", "odd")
    );
}

#[test]
fn passwords_are_hashed_and_compared() {
    let calls = calls();
    let ctx = with_crypto(&calls, None);
    assert_eq!(
        responded(ctx.run(&message("svc.crypto.hash", b"pw\xff", &[]))),
        "h$é".as_bytes()
    );
    assert_eq!(last(&calls), "hash pw\u{fffd}");
    assert_eq!(
        responded(ctx.run(&message("svc.crypto.compare_hash", b"pw", &[("hash", "h")]))),
        b"true"
    );
    assert_eq!(last(&calls), "compare pw h");
}

#[test]
fn a_wrong_password_is_no_error() {
    let calls = calls();
    let ctx = with_crypto(&calls, Some(|| CryptoError::PasswordMismatch("no match".to_string())));
    let result = done(ctx.run(&message("svc.crypto.compare_hash", b"pw", &[("hash", "h")])));
    assert_eq!(result.action, Action::Continue);
    assert!(result.response.is_none() && result.error.is_none());
    assert_eq!(
        failed(ctx.run(&message("svc.crypto.hash", b"pw", &[]))),
        refused("internal", "no match")
    );
}

#[test]
fn tokens_are_signed_and_verified() {
    let calls = calls();
    let ctx = with_crypto(&calls, None);
    let claims = b"{\"sub\":\"me\"}";
    assert_eq!(responded(ctx.run(&message("svc.crypto.sign", claims, &[]))), b"token");
    assert_eq!(last(&calls), "sign sub=\"me\" 86400");
    assert_eq!(
        responded(ctx.run(&message("svc.crypto.sign", claims, &[("expiry", "60")]))),
        b"token"
    );
    assert_eq!(last(&calls), "sign sub=\"me\" 60");
    assert_eq!(
        responded(ctx.run(&message("svc.crypto.sign", b"{}", &[("expiry", "-1")]))),
        b"token"
    );
    assert_eq!(last(&calls), "sign  86400");
    assert_eq!(
        failed(ctx.run(&message("svc.crypto.sign", b"{", &[]))),
        refused(
            "invalid_argument",
            "invalid claims JSON: EOF while parsing an object at line 1 column 1"
        )
    );
    assert_eq!(
        responded(ctx.run(&message("svc.crypto.verify", b"t", &[]))),
        b"{\"exp\":5,\"sub\":\"me\"}"
    );
    assert_eq!(last(&calls), "verify t");
}

#[test]
fn random_bytes_have_a_length() {
    let calls = calls();
    let ctx = with_crypto(&calls, None);
    assert_eq!(
        responded(ctx.run(&message("svc.crypto.random_bytes", b"", &[("length", "4")]))),
        vec![4, 4, 4, 4]
    );
    assert_eq!(last(&calls), "random 4");
    responded(ctx.run(&message("svc.crypto.random_bytes", b"", &[])));
    assert_eq!(last(&calls), "random 32");
}

#[test]
fn crypto_errors_are_reported() {
    let calls = calls();
    let ctx = with_crypto(&calls, Some(|| CryptoError::Other("oops".to_string())));
    for kind in ["hash", "compare_hash", "random_bytes"] {
        assert_eq!(
            failed(ctx.run(&message(&format!("svc.crypto.{}", kind), b"", &[]))),
            refused("internal", "oops")
        );
    }
    assert_eq!(
        failed(ctx.run(&message("svc.crypto.sign", b"{}", &[]))),
        refused("internal", "oops")
    );
    assert_eq!(
        failed(ctx.run(&message("svc.crypto.verify", b"", &[]))),
        refused("unauthenticated", "oops")
    );
}

fn wire_request(body: Option<Value>) -> WireNetworkRequest {
    let mut headers = Meta::new();
    headers.insert("X".to_string(), "1".to_string());
    WireNetworkRequest {
        method: "POST".to_string(),
        url: "http://localhost/".to_string(),
        headers,
        body,
    }
}

#[test]
fn requests_are_sent() {
    let calls = calls();
    let ctx = with_network(&calls, false);
    assert!(matches!(
        ctx.run(&message("svc.network.do", b"", &[])),
        Step::Decode(Decode::NetworkRequest)
    ));
    assert!(calls.lock().unwrap().is_empty());
    assert_eq!(
        responded(ctx.fetched(Ok(wire_request(Some(Value::from("hi")))))),
        b"{\"body\":\"Zm9v\",\"headers\":{\"A\":\"1\",\"B\":\"\"},\"status_code\":204}".to_vec()
    );
    assert_eq!(last(&calls), "POST http://localhost/ [[\"X\", \"1\"]] Some([104, 105])");
    assert_eq!(
        failed(ctx.fetched(Err("bad".to_string()))),
        refused("invalid_argument", "invalid network request: bad")
    );
    let broken = with_network(&calls, true);
    assert_eq!(
        failed(broken.fetched(Ok(wire_request(None)))),
        refused("internal", "no route")
    );
}

#[test]
fn request_bodies_are_bytes() {
    let body = |value: Option<Value>| into_request(wire_request(value)).body;
    assert_eq!(body(None), None);
    assert_eq!(body(Some(Value::Null)), None);
    assert_eq!(body(Some(Value::from(true))), None);
    assert_eq!(body(Some(Value::from(3))), None);
    assert_eq!(body(Some(Value::from("é"))), Some(vec![0xc3, 0xa9]));
    assert_eq!(body(Some(Value::from(vec![1, 2]))), Some(b"[1,2]".to_vec()));
    let object: serde_json::Map<String, Value> =
        vec![("k".to_string(), Value::from("v"))].into_iter().collect();
    assert_eq!(body(Some(Value::Object(object))), Some(b"{\"k\":\"v\"}".to_vec()));
}

#[test]
fn log_commands_have_levels() {
    let ctx = context(Some(Services::default()));
    for (level, severity, shown) in [
        ("debug", Severity::Debug, None),
        ("info", Severity::Info, None),
        ("warn", Severity::Warn, None),
        ("error", Severity::Error, None),
        ("trace", Severity::Info, Some("trace")),
        ("", Severity::Info, Some("")),
    ] {
        match ctx.run(&message(&format!("svc.logger.{}", level), b"line", &[])) {
            Step::Log(line) => {
                assert_eq!(line.severity, severity);
                assert_eq!(line.level.as_deref(), shown);
                assert_eq!(line.message, "line");
            }
            _ => panic!("not logged"),
        }
    }
}

#[test]
fn the_configuration_service_is_asked() {
    let ctx = context(Some(Services {
        config: Some(Arc::new(Config { values: Mutex::new(HashMap::new()) })),
        ..Default::default()
    }));
    let get = message("svc.config.get", b"", &[("key", "color")]);
    assert_eq!(failed(ctx.run(&get)), refused("not_found", "config key not found: color"));
    assert_eq!(
        responded(ctx.run(&message("svc.config.set", b"blau\xff", &[("key", "color")]))),
        b""
    );
    assert_eq!(responded(ctx.run(&get)), "blau\u{fffd}".as_bytes());
}

#[test]
fn the_node_configuration_stands_in_for_the_service() {
    let ctx = context(Some(Services::default()));
    assert_eq!(
        responded(ctx.run(&message("svc.config.get", b"", &[("key", "color")]))),
        "grün".as_bytes()
    );
    assert_eq!(
        failed(ctx.run(&message("svc.config.get", b"", &[("key", "size")]))),
        refused("not_found", "config key not found: size")
    );
}

#[test]
fn documents_are_answered_with() {
    assert_eq!(responded(Step::Done(json_respond(Ok(b"{}".to_vec())))), b"{}");
    assert_eq!(
        failed(Step::Done(json_respond(Err("bad".to_string())))),
        refused("internal", "failed to serialize response: bad")
    );
}

#[test]
fn the_runtime_lists_its_capabilities() {
    let listed = context(None).capabilities();
    assert_eq!(listed.len(), 2);
    assert_eq!(listed[0].kind, "log");
    assert_eq!(listed[0].summary, "Write log message");
    assert_eq!(listed[1].kind, "config.get");
    assert_eq!(listed[1].summary, "Get configuration value");
    assert!(listed.iter().all(|c| c.input.is_none() && c.output.is_none()));
}

#[test]
fn a_raised_flag_cancels() {
    let ctx = context(None);
    assert!(!ctx.is_cancelled());
    ctx.cancelled.store(true, Ordering::Relaxed);
    assert!(ctx.is_cancelled());
}

#[test]
fn a_reached_deadline_raises_the_flag() {
    let mut ctx = context(None);
    ctx.deadline = Some(Instant::now() + Duration::from_secs(3600));
    assert!(!ctx.is_cancelled());
    assert!(!ctx.cancelled.load(Ordering::Relaxed));
    ctx.deadline = Some(Instant::now());
    assert!(ctx.is_cancelled());
    assert!(ctx.cancelled.load(Ordering::Relaxed));
    ctx.deadline = None;
    assert!(ctx.is_cancelled());
}

#[test]
fn cancellation_is_decided_by_flag_and_deadline() {
    assert_eq!(decide_cancelled(true, None), (true, false));
    assert_eq!(decide_cancelled(true, Some(true)), (true, false));
    assert_eq!(decide_cancelled(false, Some(true)), (true, true));
    assert_eq!(decide_cancelled(false, Some(false)), (false, false));
    assert_eq!(decide_cancelled(false, None), (false, false));
}

#[test]
fn a_call_is_handed_out_and_made_once() {
    let calls = calls();
    let ctx = with_db(&calls, None);
    let call = match ctx.send(&message("svc.database.get", b"", &[COLLECTION, ID])) {
        Step::Call(call) => call,
        _ => panic!("no call"),
    };
    match &call {
        ServiceCall::Database(DatabaseRequest::Get { collection, id }) => {
            assert_eq!((collection.as_str(), id.as_str()), ("users", "u1"))
        }
        other => panic!("{:?}", other),
    }
    assert!(calls.lock().unwrap().is_empty());
    assert!(matches!(ctx.perform(call), Step::Encode(Payload::Record(_))));
    assert_eq!(*calls.lock().unwrap(), vec!["get users u1".to_string()]);
}

#[test]
fn commands_are_planned_without_any_service() {
    let all =
        Configured { database: true, storage: true, crypto: true, config: true, network: true };
    let none = Services::default().configured();
    assert_eq!(
        none,
        Configured {
            database: false,
            storage: false,
            crypto: false,
            config: false,
            network: false
        }
    );
    let node = Meta::new();
    let msg = message("x", b"v", &[("key", "k")]);
    match plan_command(all, &node, "config.set", &msg) {
        Step::Call(ServiceCall::Config(ConfigRequest::Write { key, value })) => {
            assert_eq!((key.as_str(), value.as_str()), ("k", "v"))
        }
        _ => panic!("no call"),
    }
    match plan_command(all, &node, "config.get", &msg) {
        Step::Call(ServiceCall::Config(ConfigRequest::Read { key })) => assert_eq!(key, "k"),
        _ => panic!("no call"),
    }
    match plan_command(all, &node, "crypto.hash", &msg) {
        Step::Call(ServiceCall::Crypto(CryptoRequest::Hash { password })) => {
            assert_eq!(password, "v")
        }
        _ => panic!("no call"),
    }
    assert_eq!(
        failed(plan_command(none, &node, "config.set", &msg)),
        refused("unavailable", "config service not configured")
    );
    assert_eq!(
        failed(plan_command(all, &node, "fly", &msg)),
        refused("unavailable", "unknown service capability: svc.fly")
    );
}

#[test]
fn a_call_of_a_missing_service_is_refused() {
    let get = || ServiceCall::Storage(StorageRequest::Get {
        bucket: "b".to_string(),
        key: "k".to_string(),
    });
    let empty = context(Some(Services::default()));
    assert_eq!(
        failed(context(None).perform(get())),
        refused("unavailable", "platform services not configured")
    );
    assert_eq!(
        failed(empty.perform(get())),
        refused("unavailable", "storage service not configured")
    );
    let request = into_request(wire_request(None));
    assert_eq!(
        failed(empty.perform(ServiceCall::Network(request))),
        refused("unavailable", "network service not configured")
    );
    let read = ConfigRequest::Read { key: "k".to_string() };
    assert_eq!(
        failed(empty.perform(ServiceCall::Config(read))),
        refused("unavailable", "config service not configured")
    );
}
