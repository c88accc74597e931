//! What the commands for the cryptography do.
use vstd::prelude::*;

use crate::context::{sent, RuntimeContext};
use crate::decimal::numeral;
use crate::json::parsed_object;
use crate::laws::names::{crypto_names, kind_is_prefix_and_name, kinds_are_prefix_and_name};
use crate::laws::numbers::{no_number, unsigned_texts};
use crate::laws::terms::{has_crypto, is_error, stands_under};
use crate::services::crypto::CryptoCall;
use crate::services::ServiceCallView;
use crate::step::StepView;
use crate::text::utf8_lossy;
use crate::types::MessageView;

verus! {

/// Passwords and tokens are the text of the message's bytes; a password is
/// compared with the hash that the message has.
pub proof fn passwords_and_tokens_are_the_text_of_the_bytes(
    context: RuntimeContext,
    msg: MessageView,
)
    requires
        has_crypto(context),
    ensures
        msg.kind == "svc.crypto.hash"@ ==> sent(context, msg) == StepView::Call(
            ServiceCallView::Crypto(CryptoCall::Hash { password: utf8_lossy(msg.data) }),
        ),
        msg.kind == "svc.crypto.compare_hash"@ ==> (sent(context, msg) matches StepView::Call(
            ServiceCallView::Crypto(CryptoCall::CompareHash { password, hash }),
        ) && password == utf8_lossy(msg.data) && stands_under(msg, "hash"@, hash)),
        msg.kind == "svc.crypto.verify"@ ==> sent(context, msg) == StepView::Call(
            ServiceCallView::Crypto(CryptoCall::Verify { token: utf8_lossy(msg.data) }),
        ),
{
    kinds_are_prefix_and_name();
    crypto_names();
    if msg.kind == "svc.crypto.hash"@ {
        kind_is_prefix_and_name(msg.kind, "crypto.hash"@);
    }
    if msg.kind == "svc.crypto.compare_hash"@ {
        kind_is_prefix_and_name(msg.kind, "crypto.compare_hash"@);
    }
    if msg.kind == "svc.crypto.verify"@ {
        kind_is_prefix_and_name(msg.kind, "crypto.verify"@);
    }
}

/// Signing hands over the claims that the bytes of the message hold, all of them
/// and unchanged. Bytes that hold no object are refused, with the reason.
pub proof fn claims_are_signed_as_given(context: RuntimeContext, msg: MessageView)
    requires
        has_crypto(context),
        msg.kind == "svc.crypto.sign"@,
    ensures
        parsed_object(msg.data) is Ok ==> (sent(context, msg) matches StepView::Call(
            ServiceCallView::Crypto(CryptoCall::Sign { claims, expiry_secs: _ }),
        ) && claims == parsed_object(msg.data)->Ok_0),
        parsed_object(msg.data) is Err ==> is_error(
            sent(context, msg),
            "invalid_argument"@,
            "invalid claims JSON: "@ + parsed_object(msg.data)->Err_0,
        ),
{
    kinds_are_prefix_and_name();
    crypto_names();
    kind_is_prefix_and_name(msg.kind, "crypto.sign"@);
}

/// A token lives for as many seconds as the numeral that the message has says,
/// whichever it is, and for a day where the message has none or one that does not
/// fit.
pub proof fn tokens_live_as_long_as_given(context: RuntimeContext, msg: MessageView, n: nat)
    requires
        has_crypto(context),
        msg.kind == "svc.crypto.sign"@,
        parsed_object(msg.data) is Ok,
    ensures
        sent(context, msg) matches StepView::Call(
            ServiceCallView::Crypto(CryptoCall::Sign { claims: _, expiry_secs }),
        ) && {
            &&& stands_under(msg, "expiry"@, numeral(n)) ==> expiry_secs == if n <= u64::MAX {
                n as int
            } else {
                86400
            }
            &&& stands_under(msg, "expiry"@, "-"@ + numeral(n)) ==> expiry_secs == 86400
            &&& no_number(msg, "expiry"@) ==> expiry_secs == 86400
        },
{
    kinds_are_prefix_and_name();
    crypto_names();
    kind_is_prefix_and_name(msg.kind, "crypto.sign"@);
    unsigned_texts(msg, "expiry"@, n, u64::MAX as int);
}

/// As many random bytes are asked for as the numeral that the message has says,
/// and 32 where it has none or one that does not fit.
pub proof fn random_bytes_are_as_many_as_given(context: RuntimeContext, msg: MessageView, n: nat)
    requires
        has_crypto(context),
        msg.kind == "svc.crypto.random_bytes"@,
    ensures
        sent(context, msg) matches StepView::Call(
            ServiceCallView::Crypto(CryptoCall::RandomBytes { length }),
        ) && {
            &&& stands_under(msg, "length"@, numeral(n)) ==> length == if n <= usize::MAX {
                n as int
            } else {
                32
            }
            &&& stands_under(msg, "length"@, "-"@ + numeral(n)) ==> length == 32
            &&& no_number(msg, "length"@) ==> length == 32
        },
{
    kinds_are_prefix_and_name();
    crypto_names();
    kind_is_prefix_and_name(msg.kind, "crypto.random_bytes"@);
    unsigned_texts(msg, "length"@, n, usize::MAX as int);
}

} // verus!
