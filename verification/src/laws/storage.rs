//! What the commands for the storage do.
use vstd::prelude::*;

use crate::context::{sent, RuntimeContext};
use crate::decimal::signed_numeral;
use crate::laws::names::{kind_is_prefix_and_name, kinds_are_prefix_and_name, storage_names};
use crate::laws::numbers::{i64_texts, no_number};
use crate::laws::terms::{has_storage, stands_under};
use crate::services::storage::StorageCall;
use crate::services::ServiceCallView;
use crate::step::StepView;
use crate::types::MessageView;

verus! {

/// Storing an object hands over the bytes of the message, all of them and
/// whatever its metadata is, with its bucket and its key. The content type is
/// the one that the message has, or that of plain bytes where it has none.
pub proof fn objects_are_stored_whole(context: RuntimeContext, msg: MessageView)
    requires
        has_storage(context),
        msg.kind == "svc.storage.put"@,
    ensures
        sent(context, msg) matches StepView::Call(
            ServiceCallView::Storage(StorageCall::Put { bucket, key, data, content_type }),
        ) && data == msg.data && stands_under(msg, "bucket"@, bucket) && stands_under(
            msg,
            "key"@,
            key,
        ) && (if msg.meta.contains_key("content_type"@) && msg.meta["content_type"@].len() > 0 {
            content_type == msg.meta["content_type"@]
        } else {
            content_type == "application/octet-stream"@
        }),
{
    kinds_are_prefix_and_name();
    storage_names();
    kind_is_prefix_and_name(msg.kind, "storage.put"@);
}

/// Two messages that store an object and differ in their content type alone lead
/// to calls that differ in it alone.
pub proof fn content_type_changes_nothing_else(
    context: RuntimeContext,
    msg: MessageView,
    content_type: Seq<char>,
)
    requires
        has_storage(context),
        msg.kind == "svc.storage.put"@,
        content_type.len() > 0,
    ensures
        sent(context, msg) matches StepView::Call(
            ServiceCallView::Storage(StorageCall::Put { bucket, key, data, content_type: _ }),
        ) && sent(
            context,
            (MessageView { meta: msg.meta.insert("content_type"@, content_type), ..msg }),
        ) == StepView::Call(
            ServiceCallView::Storage(StorageCall::Put { bucket, key, data, content_type }),
        ),
{
    let other = MessageView { meta: msg.meta.insert("content_type"@, content_type), ..msg };
    objects_are_stored_whole(context, msg);
    objects_are_stored_whole(context, other);
    reveal_strlit("content_type");
    reveal_strlit("bucket");
    reveal_strlit("key");
    assert("content_type"@.len() != "bucket"@.len());
    assert("content_type"@.len() != "key"@.len());
    let a = sent(context, msg)->Call_0->Storage_0;
    let b = sent(context, other)->Call_0->Storage_0;
    assert(a->Put_bucket =~= b->Put_bucket);
    assert(a->Put_key =~= b->Put_key);
}

/// Getting and deleting an object hand over the bucket and the key of the
/// message.
pub proof fn objects_are_named_by_bucket_and_key(context: RuntimeContext, msg: MessageView)
    requires
        has_storage(context),
    ensures
        msg.kind == "svc.storage.get"@ ==> (sent(context, msg) matches StepView::Call(
            ServiceCallView::Storage(StorageCall::Get { bucket, key }),
        ) && stands_under(msg, "bucket"@, bucket) && stands_under(msg, "key"@, key)),
        msg.kind == "svc.storage.delete"@ ==> (sent(context, msg) matches StepView::Call(
            ServiceCallView::Storage(StorageCall::Delete { bucket, key }),
        ) && stands_under(msg, "bucket"@, bucket) && stands_under(msg, "key"@, key)),
{
    kinds_are_prefix_and_name();
    storage_names();
    if msg.kind == "svc.storage.get"@ {
        kind_is_prefix_and_name(msg.kind, "storage.get"@);
    }
    if msg.kind == "svc.storage.delete"@ {
        kind_is_prefix_and_name(msg.kind, "storage.delete"@);
    }
}

/// Listing objects hands over the bucket and the prefix of the message.
pub proof fn objects_are_listed_by_bucket_and_prefix(context: RuntimeContext, msg: MessageView)
    requires
        has_storage(context),
        msg.kind == "svc.storage.list"@,
    ensures
        sent(context, msg) matches StepView::Call(
            ServiceCallView::Storage(StorageCall::List { bucket, options }),
        ) && stands_under(msg, "bucket"@, bucket) && stands_under(
            msg,
            "prefix"@,
            options.prefix,
        ),
{
    kinds_are_prefix_and_name();
    storage_names();
    kind_is_prefix_and_name(msg.kind, "storage.list"@);
}

/// A listing is bounded by the numbers whose numerals the message has, and by
/// 1000 objects from the first on where it has none or one that does not fit.
pub proof fn objects_are_listed_within_bounds(context: RuntimeContext, msg: MessageView, n: int)
    requires
        has_storage(context),
        msg.kind == "svc.storage.list"@,
    ensures
        sent(context, msg) matches StepView::Call(
            ServiceCallView::Storage(StorageCall::List { bucket: _, options }),
        ) && {
            &&& stands_under(msg, "limit"@, signed_numeral(n)) ==> options.limit == if i64::MIN
                <= n <= i64::MAX {
                n
            } else {
                1000
            }
            &&& stands_under(msg, "offset"@, signed_numeral(n)) ==> options.offset == if i64::MIN
                <= n <= i64::MAX {
                n
            } else {
                0
            }
            &&& no_number(msg, "limit"@) ==> options.limit == 1000
            &&& no_number(msg, "offset"@) ==> options.offset == 0
        },
{
    kinds_are_prefix_and_name();
    storage_names();
    kind_is_prefix_and_name(msg.kind, "storage.list"@);
    i64_texts(msg, "limit"@, n);
    i64_texts(msg, "offset"@, n);
}

} // verus!
