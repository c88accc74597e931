//! The terms in which the laws speak of messages and of what they lead to.
use vstd::prelude::*;

use crate::context::RuntimeContext;
use crate::step::StepView;
use crate::types::{Action, ErrorView, MessageView, ResponseView, ResultView};

verus! {

/// The text is what a message has under a key in its metadata: the value there,
/// or no text at all.
pub open spec fn stands_under(msg: MessageView, key: Seq<char>, text: Seq<char>) -> bool {
    if msg.meta.contains_key(key) {
        text == msg.meta[key]
    } else {
        text.len() == 0
    }
}

/// The step is an error with this code and text, and nothing else.
pub open spec fn is_error(step: StepView, code: Seq<char>, text: Seq<char>) -> bool {
    step == StepView::Done(
        ResultView {
            action: Action::Error,
            response: None,
            error: Some(ErrorView { code, message: text, meta: Map::empty() }),
            message: None,
        },
    )
}

/// The step is a response with these bytes, and nothing else.
pub open spec fn is_response(step: StepView, data: Seq<u8>) -> bool {
    step == StepView::Done(
        ResultView {
            action: Action::Respond,
            response: Some(ResponseView { data, meta: Map::empty() }),
            error: None,
            message: None,
        },
    )
}

/// The step lets the chain go on, and says nothing.
pub open spec fn is_going_on(step: StepView) -> bool {
    step == StepView::Done(
        ResultView { action: Action::Continue, response: None, error: None, message: None },
    )
}

/// The platform has a database.
pub open spec fn has_database(context: RuntimeContext) -> bool {
    context.platform_services is Some && context.platform_services->0.database is Some
}

/// The platform has a storage.
pub open spec fn has_storage(context: RuntimeContext) -> bool {
    context.platform_services is Some && context.platform_services->0.storage is Some
}

/// The platform has a cryptography.
pub open spec fn has_crypto(context: RuntimeContext) -> bool {
    context.platform_services is Some && context.platform_services->0.crypto is Some
}

/// The platform has a network.
pub open spec fn has_network(context: RuntimeContext) -> bool {
    context.platform_services is Some && context.platform_services->0.network is Some
}

/// The platform has a configuration.
pub open spec fn has_config(context: RuntimeContext) -> bool {
    context.platform_services is Some && context.platform_services->0.config is Some
}

} // verus!
