//! Records in collections.
use std::collections::HashMap;
use vstd::prelude::*;

use crate::json::object_content;

verus! {

/// How a filter compares.
#[derive(Debug, Clone, Copy, PartialEq, Eq, Structural)]
pub enum FilterOp {
    Equal,
    NotEqual,
    GreaterThan,
    GreaterEqual,
    LessThan,
    LessEqual,
    Like,
    In,
}

/// A condition on a field.
#[derive(Debug)]
pub struct Filter {
    pub field: String,
    pub operator: FilterOp,
    pub value: serde_json::Value,
}

/// What a filter holds.
pub struct FilterView {
    pub field: Seq<char>,
    pub operator: FilterOp,
    pub value: serde_json::Value,
}

impl View for Filter {
    type V = FilterView;

    open spec fn view(&self) -> FilterView {
        FilterView { field: self.field@, operator: self.operator, value: self.value }
    }
}

/// A field to sort by.
#[derive(Debug)]
pub struct SortField {
    pub field: String,
    pub desc: bool,
}

/// What a sort field holds.
pub struct SortFieldView {
    pub field: Seq<char>,
    pub desc: bool,
}

impl View for SortField {
    type V = SortFieldView;

    open spec fn view(&self) -> SortFieldView {
        SortFieldView { field: self.field@, desc: self.desc }
    }
}

/// Which records to list.
#[derive(Debug)]
pub struct ListOptions {
    pub filters: Vec<Filter>,
    pub sort: Vec<SortField>,
    pub limit: i64,
    pub offset: i64,
}

/// What list options hold.
pub struct ListOptionsView {
    pub filters: Seq<FilterView>,
    pub sort: Seq<SortFieldView>,
    pub limit: i64,
    pub offset: i64,
}

impl View for ListOptions {
    type V = ListOptionsView;

    open spec fn view(&self) -> ListOptionsView {
        ListOptionsView {
            filters: self.filters@.map_values(|f: Filter| f@),
            sort: self.sort@.map_values(|s: SortField| s@),
            limit: self.limit,
            offset: self.offset,
        }
    }
}

impl ListOptionsView {
    /// No filter, no order, no bounds.
    pub open spec fn plain() -> Self {
        ListOptionsView { filters: Seq::empty(), sort: Seq::empty(), limit: 0, offset: 0 }
    }
}

impl Default for ListOptions {
    /// No filter, no order, no bounds.
    fn default() -> (r: Self)
        ensures
            r@ == ListOptionsView::plain(),
    {
        let r = ListOptions { filters: Vec::new(), sort: Vec::new(), limit: 0, offset: 0 };
        assert(r@.filters =~= Seq::<FilterView>::empty());
        assert(r@.sort =~= Seq::<SortFieldView>::empty());
        r
    }
}

/// A stored record.
#[derive(Debug)]
pub struct Record {
    pub id: String,
    pub data: HashMap<String, serde_json::Value>,
}

/// A page of records.
#[derive(Debug)]
pub struct RecordList {
    pub records: Vec<Record>,
    pub total_count: i64,
}

/// Why a database call failed.
#[derive(Debug)]
pub enum DatabaseError {
    NotFound,
    Internal(String),
    /// An error of the platform's own, by its text.
    Other(String),
}

/// A call of the database.
#[derive(Debug)]
pub enum DatabaseRequest {
    Get { collection: String, id: String },
    List { collection: String, options: ListOptions },
    Create { collection: String, data: HashMap<String, serde_json::Value> },
    Update { collection: String, id: String, data: HashMap<String, serde_json::Value> },
    Delete { collection: String, id: String },
    Count { collection: String, filters: Vec<Filter> },
    QueryRaw { query: String, args: Vec<serde_json::Value> },
    ExecRaw { query: String, args: Vec<serde_json::Value> },
}

impl View for DatabaseRequest {
    type V = DatabaseCall;

    open spec fn view(&self) -> DatabaseCall {
        match *self {
            DatabaseRequest::Get { collection, id } => DatabaseCall::Get {
                collection: collection@,
                id: id@,
            },
            DatabaseRequest::List { collection, options } => DatabaseCall::List {
                collection: collection@,
                options: options@,
            },
            DatabaseRequest::Create { collection, data } => DatabaseCall::Create {
                collection: collection@,
                data: object_content(data),
            },
            DatabaseRequest::Update { collection, id, data } => DatabaseCall::Update {
                collection: collection@,
                id: id@,
                data: object_content(data),
            },
            DatabaseRequest::Delete { collection, id } => DatabaseCall::Delete {
                collection: collection@,
                id: id@,
            },
            DatabaseRequest::Count { collection, filters } => DatabaseCall::Count {
                collection: collection@,
                filters: filters@.map_values(|f: Filter| f@),
            },
            DatabaseRequest::QueryRaw { query, args } => DatabaseCall::QueryRaw {
                query: query@,
                args: args@,
            },
            DatabaseRequest::ExecRaw { query, args } => DatabaseCall::ExecRaw {
                query: query@,
                args: args@,
            },
        }
    }
}

/// A call of the database, by what it is asked.
pub ghost enum DatabaseCall {
    Get { collection: Seq<char>, id: Seq<char> },
    List { collection: Seq<char>, options: ListOptionsView },
    Create { collection: Seq<char>, data: Map<Seq<char>, serde_json::Value> },
    Update { collection: Seq<char>, id: Seq<char>, data: Map<Seq<char>, serde_json::Value> },
    Delete { collection: Seq<char>, id: Seq<char> },
    Count { collection: Seq<char>, filters: Seq<FilterView> },
    QueryRaw { query: Seq<char>, args: Seq<serde_json::Value> },
    ExecRaw { query: Seq<char>, args: Seq<serde_json::Value> },
}

/// What a database call came back with.
pub ghost enum DatabaseOutcome {
    Record(Result<Record, DatabaseError>),
    Page(Result<RecordList, DatabaseError>),
    Rows(Result<Vec<Record>, DatabaseError>),
    Number(Result<i64, DatabaseError>),
    Nothing(Result<(), DatabaseError>),
}

/// A database that a platform provides.
pub trait DatabaseService: Send + Sync {
    /// Whether the call can come back with the outcome.
    open spec fn may_answer(&self, call: DatabaseCall, outcome: DatabaseOutcome) -> bool {
        true
    }

    /// The record with an id.
    fn get(&self, collection: &str, id: &str) -> (r: Result<Record, DatabaseError>)
        ensures
            self.may_answer(
                DatabaseCall::Get { collection: collection@, id: id@ },
                DatabaseOutcome::Record(r),
            ),
    ;

    /// The records that the options select.
    fn list(&self, collection: &str, options: &ListOptions) -> (r: Result<
        RecordList,
        DatabaseError,
    >)
        ensures
            self.may_answer(
                DatabaseCall::List { collection: collection@, options: options@ },
                DatabaseOutcome::Page(r),
            ),
    ;

    /// Adds a record.
    fn create(&self, collection: &str, data: HashMap<String, serde_json::Value>) -> (r: Result<
        Record,
        DatabaseError,
    >)
        ensures
            self.may_answer(
                DatabaseCall::Create { collection: collection@, data: object_content(data) },
                DatabaseOutcome::Record(r),
            ),
    ;

    /// Changes a record.
    fn update(
        &self,
        collection: &str,
        id: &str,
        data: HashMap<String, serde_json::Value>,
    ) -> (r: Result<Record, DatabaseError>)
        ensures
            self.may_answer(
                DatabaseCall::Update { collection: collection@, id: id@, data: object_content(data) },
                DatabaseOutcome::Record(r),
            ),
    ;

    /// Removes a record.
    fn delete(&self, collection: &str, id: &str) -> (r: Result<(), DatabaseError>)
        ensures
            self.may_answer(
                DatabaseCall::Delete { collection: collection@, id: id@ },
                DatabaseOutcome::Nothing(r),
            ),
    ;

    /// How many records pass the filters.
    fn count(&self, collection: &str, filters: &Vec<Filter>) -> (r: Result<i64, DatabaseError>)
        ensures
            self.may_answer(
                DatabaseCall::Count {
                    collection: collection@,
                    filters: filters@.map_values(|f: Filter| f@),
                },
                DatabaseOutcome::Number(r),
            ),
    ;

    /// The rows of a query in the database's own language.
    fn query_raw(&self, query: &str, args: &Vec<serde_json::Value>) -> (r: Result<
        Vec<Record>,
        DatabaseError,
    >)
        ensures
            self.may_answer(
                DatabaseCall::QueryRaw { query: query@, args: args@ },
                DatabaseOutcome::Rows(r),
            ),
    ;

    /// How many rows a statement in the database's own language touched.
    fn exec_raw(&self, query: &str, args: &Vec<serde_json::Value>) -> (r: Result<
        i64,
        DatabaseError,
    >)
        ensures
            self.may_answer(
                DatabaseCall::ExecRaw { query: query@, args: args@ },
                DatabaseOutcome::Number(r),
            ),
    ;
}

} // verus!
