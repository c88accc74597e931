//! Objects in buckets.
use vstd::prelude::*;

verus! {

/// What is known of an object.
#[derive(Debug)]
pub struct ObjectInfo {
    pub key: String,
    pub size: i64,
    pub content_type: String,
}

/// A page of objects.
#[derive(Debug)]
pub struct ObjectList {
    pub objects: Vec<ObjectInfo>,
    pub total_count: i64,
}

/// Which objects to list.
#[derive(Debug)]
pub struct ListOptions {
    pub prefix: String,
    pub limit: i64,
    pub offset: i64,
}

/// What list options hold.
pub struct ListOptionsView {
    pub prefix: Seq<char>,
    pub limit: int,
    pub offset: int,
}

impl View for ListOptions {
    type V = ListOptionsView;

    open spec fn view(&self) -> ListOptionsView {
        ListOptionsView {
            prefix: self.prefix@,
            limit: self.limit as int,
            offset: self.offset as int,
        }
    }
}

/// Why a storage call failed.
#[derive(Debug)]
pub enum StorageError {
    NotFound,
    Internal(String),
    /// An error of the platform's own, by its text.
    Other(String),
}

/// A call of the storage.
#[derive(Debug)]
pub enum StorageRequest {
    Put { bucket: String, key: String, data: Vec<u8>, content_type: String },
    Get { bucket: String, key: String },
    Delete { bucket: String, key: String },
    List { bucket: String, options: ListOptions },
}

impl View for StorageRequest {
    type V = StorageCall;

    open spec fn view(&self) -> StorageCall {
        match *self {
            StorageRequest::Put { bucket, key, data, content_type } => StorageCall::Put {
                bucket: bucket@,
                key: key@,
                data: data@,
                content_type: content_type@,
            },
            StorageRequest::Get { bucket, key } => StorageCall::Get { bucket: bucket@, key: key@ },
            StorageRequest::Delete { bucket, key } => StorageCall::Delete {
                bucket: bucket@,
                key: key@,
            },
            StorageRequest::List { bucket, options } => StorageCall::List {
                bucket: bucket@,
                options: options@,
            },
        }
    }
}

/// A call of the storage, by what it is asked.
pub ghost enum StorageCall {
    Put { bucket: Seq<char>, key: Seq<char>, data: Seq<u8>, content_type: Seq<char> },
    Get { bucket: Seq<char>, key: Seq<char> },
    Delete { bucket: Seq<char>, key: Seq<char> },
    List { bucket: Seq<char>, options: ListOptionsView },
}

/// What a storage call came back with.
pub ghost enum StorageOutcome {
    Nothing(Result<(), StorageError>),
    Object(Result<(Vec<u8>, ObjectInfo), StorageError>),
    Page(Result<ObjectList, StorageError>),
}

/// An object storage that a platform provides.
pub trait StorageService: Send + Sync {
    /// Whether the call can come back with the outcome.
    open spec fn may_answer(&self, call: StorageCall, outcome: StorageOutcome) -> bool {
        true
    }

    /// Stores an object.
    fn put(&self, bucket: &str, key: &str, data: &[u8], content_type: &str) -> (r: Result<
        (),
        StorageError,
    >)
        ensures
            self.may_answer(
                StorageCall::Put {
                    bucket: bucket@,
                    key: key@,
                    data: data@,
                    content_type: content_type@,
                },
                StorageOutcome::Nothing(r),
            ),
    ;

    /// The bytes of an object.
    fn get(&self, bucket: &str, key: &str) -> (r: Result<(Vec<u8>, ObjectInfo), StorageError>)
        ensures
            self.may_answer(
                StorageCall::Get { bucket: bucket@, key: key@ },
                StorageOutcome::Object(r),
            ),
    ;

    /// Removes an object.
    fn delete(&self, bucket: &str, key: &str) -> (r: Result<(), StorageError>)
        ensures
            self.may_answer(
                StorageCall::Delete { bucket: bucket@, key: key@ },
                StorageOutcome::Nothing(r),
            ),
    ;

    /// The objects that the options select.
    fn list(&self, bucket: &str, options: &ListOptions) -> (r: Result<ObjectList, StorageError>)
        ensures
            self.may_answer(
                StorageCall::List { bucket: bucket@, options: options@ },
                StorageOutcome::Page(r),
            ),
    ;
}

} // verus!
