//! The runtime context through which blocks reach the runtime.
use std::sync::atomic::{AtomicBool, Ordering};
use std::sync::Arc;
use std::time::Instant;
use vstd::prelude::*;

use crate::dispatch::dispatched;
use crate::meta::Meta;
use crate::results::err_joined;
use crate::services::Services;
use crate::step::{config_reply, config_reply_step, LogLine, LogLineView, Severity, Step, StepView};
use crate::text::{after_prefix, strip_prefix, text_eq, text_lossy, utf8_lossy};
use crate::types::{Message, MessageView, ResultView, Result_};

verus! {

/// `std::time::Instant`, a reading of the machine's monotonic clock.
#[verifier::external_type_specification]
#[verifier::external_body]
pub struct ExInstant(Instant);

/// Where a reading of the clock stands in the order of all readings.
pub uninterp spec fn instant_rank(instant: Instant) -> int;

/// Whether the clock may give this reading.
pub uninterp spec fn clock_may_read(now: Instant) -> bool;

/// Whether a flag may be found to hold the value.
pub uninterp spec fn flag_may_read(flag: AtomicBool, value: bool) -> bool;

/// Whether a flag was raised, when it held the value before.
pub uninterp spec fn flag_was_raised(flag: AtomicBool, before: bool) -> bool;

/// Calls `Instant::now`: the reading is one that the clock may give.
#[verifier::external_body]
fn clock_now() -> (r: Instant)
    ensures
        clock_may_read(r),
{
    Instant::now()
}

/// Calls `AtomicBool::load`: the value is one that the flag may hold, as other
/// threads share it.
#[verifier::external_body]
fn flag_value(flag: &AtomicBool) -> (r: bool)
    ensures
        flag_may_read(*flag, r),
{
    flag.load(Ordering::Relaxed)
}

/// Calls `AtomicBool::swap` with `true`: the flag is raised, and what it held
/// before comes back.
#[verifier::external_body]
fn raise_flag(flag: &AtomicBool) -> (r: bool)
    ensures
        flag_was_raised(*flag, r),
{
    flag.swap(true, Ordering::Relaxed)
}

/// Calls `Instant::ge`: readings are in a total order.
#[verifier::external_body]
fn clock_reached(now: &Instant, deadline: &Instant) -> (r: bool)
    ensures
        r == (instant_rank(*now) >= instant_rank(*deadline)),
{
    now >= deadline
}

/// Describes a runtime capability.
#[derive(Debug)]
pub struct CapabilityInfo {
    pub kind: String,
    pub summary: String,
    pub input: Option<serde_json::Value>,
    pub output: Option<serde_json::Value>,
}

/// What the description of a capability holds.
pub struct CapabilityView {
    pub kind: Seq<char>,
    pub summary: Seq<char>,
    pub input: Option<serde_json::Value>,
    pub output: Option<serde_json::Value>,
}

impl View for CapabilityInfo {
    type V = CapabilityView;

    open spec fn view(&self) -> CapabilityView {
        CapabilityView {
            kind: self.kind@,
            summary: self.summary@,
            input: self.input,
            output: self.output,
        }
    }
}

impl CapabilityView {
    /// A capability whose input and output are not described.
    pub open spec fn plain(kind: Seq<char>, summary: Seq<char>) -> Self {
        CapabilityView { kind, summary, input: None, output: None }
    }
}

/// Runtime capabilities for blocks, by way of messages. What a context answers
/// is its own affair: each method promises only that the answer is one that the
/// context may give, which is any answer unless the context says more.
pub trait Context: Send + Sync {
    /// Whether the message may be answered with the result.
    open spec fn may_answer(&self, msg: MessageView, result: ResultView) -> bool {
        true
    }

    /// Whether the context may list these capabilities.
    open spec fn may_list(&self, capabilities: Seq<CapabilityInfo>) -> bool {
        true
    }

    /// Whether the context may say so when it is asked if it was cancelled.
    open spec fn may_say_cancelled(&self, cancelled: bool) -> bool {
        true
    }

    /// Sends a message to a runtime capability.
    fn send(&self, msg: &Message) -> (r: Result_)
        ensures
            self.may_answer(msg@, r@),
    ;

    /// The runtime capabilities.
    fn capabilities(&self) -> (r: Vec<CapabilityInfo>)
        ensures
            self.may_list(r@),
    ;

    /// Whether the context was cancelled.
    fn is_cancelled(&self) -> (r: bool)
        ensures
            self.may_say_cancelled(r),
    ;

    /// The platform services.
    fn services(&self) -> Option<&Services>;

    /// A value of the block's node configuration.
    fn config_get(&self, key: &str) -> Option<&str>;
}

/// The context that a runtime gives to a block.
pub struct RuntimeContext {
    pub chain_id: String,
    pub node_id: String,
    pub config: Meta,
    pub cancelled: Arc<AtomicBool>,
    pub deadline: Option<Instant>,
    pub platform_services: Option<Arc<Services>>,
}

/// The value of a key in a configuration.
pub open spec fn config_value(
    config: Map<Seq<char>, Seq<char>>,
    key: Seq<char>,
) -> Option<Seq<char>> {
    if config.contains_key(key) {
        Some(config[key])
    } else {
        None
    }
}

/// The step that a message leads to: one of a kind that begins with `svc.` goes
/// to the services, `log` is logged, `config.get` is looked up in the node
/// configuration, and any other kind is refused.
pub open spec fn sent(context: RuntimeContext, msg: MessageView) -> StepView {
    match after_prefix(msg.kind, "svc."@) {
        Some(svc_kind) => dispatched(context, svc_kind, msg),
        None => if msg.kind == "log"@ {
            StepView::Log(
                LogLineView {
                    severity: Severity::Info,
                    level: Some(msg.get_meta("level"@)),
                    message: utf8_lossy(msg.data),
                },
            )
        } else if msg.kind == "config.get"@ {
            config_reply_step(
                msg.get_meta("key"@),
                config_value(context.config@, msg.get_meta("key"@)),
            )
        } else {
            StepView::failed("unavailable"@, "unknown capability: "@ + msg.kind)
        },
    }
}

/// Whether a context is cancelled by a raised flag or a reached deadline, and
/// whether the flag is to be raised on that account.
pub open spec fn cancellation(flag: bool, deadline_reached: Option<bool>) -> (bool, bool) {
    let late = !flag && deadline_reached == Some(true);
    (flag || late, late)
}

/// Whether a deadline is reached at a reading of the clock; `None` where there
/// is no deadline.
pub open spec fn deadline_reached(deadline: Option<Instant>, now: Instant) -> Option<bool> {
    match deadline {
        Some(deadline) => Some(instant_rank(now) >= instant_rank(deadline)),
        None => None,
    }
}

/// Whether asking a context may give the answer: its flag and the clock are
/// read, the answer is what `cancellation` makes of the two readings, and where
/// the deadline is the reason the flag was raised.
pub open spec fn found_cancelled(context: RuntimeContext, r: bool) -> bool {
    exists|flag: bool, now: Instant|
        flag_may_read(*context.cancelled, flag) && clock_may_read(now) && r == (
        #[trigger] cancellation(flag, deadline_reached(context.deadline, now))).0 && (cancellation(
            flag,
            deadline_reached(context.deadline, now),
        ).1 ==> exists|was: bool| #[trigger] flag_was_raised(*context.cancelled, was))
}

/// Decides whether a context is cancelled, and whether its flag is to be raised.
pub fn decide_cancelled(flag: bool, deadline_reached: Option<bool>) -> (r: (bool, bool))
    ensures
        r == cancellation(flag, deadline_reached),
{
    if flag {
        return (true, false);
    }
    match deadline_reached {
        Some(reached) => (reached, reached),
        None => (false, false),
    }
}

impl RuntimeContext {
    /// The step that a message to a runtime capability leads to.
    pub fn send(&self, msg: &Message) -> (r: Step)
        ensures
            r@ == sent(*self, msg@),
    {
        let kind = msg.kind.as_str();
        if let Some(svc_kind) = strip_prefix(kind, "svc.") {
            return self.dispatch_service(svc_kind, msg);
        }
        if text_eq(kind, "log") {
            Step::Log(
                LogLine {
                    severity: Severity::Info,
                    level: Some(msg.get_meta("level").to_owned()),
                    message: text_lossy(msg.data.as_slice()),
                },
            )
        } else if text_eq(kind, "config.get") {
            let key = msg.get_meta("key");
            config_reply(key, self.config_get(key))
        } else {
            Step::Done(err_joined("unavailable", "unknown capability: ", kind))
        }
    }

    /// The capabilities of the runtime itself.
    pub fn capabilities(&self) -> (r: Vec<CapabilityInfo>)
        ensures
            r@.map_values(|c: CapabilityInfo| c@) == seq![
                CapabilityView::plain("log"@, "Write log message"@),
                CapabilityView::plain("config.get"@, "Get configuration value"@),
            ],
    {
        let mut r: Vec<CapabilityInfo> = Vec::new();
        r.push(
            CapabilityInfo {
                kind: "log".to_owned(),
                summary: "Write log message".to_owned(),
                input: None,
                output: None,
            },
        );
        r.push(
            CapabilityInfo {
                kind: "config.get".to_owned(),
                summary: "Get configuration value".to_owned(),
                input: None,
                output: None,
            },
        );
        assert(r@.map_values(|c: CapabilityInfo| c@) =~= seq![
            CapabilityView::plain("log"@, "Write log message"@),
            CapabilityView::plain("config.get"@, "Get configuration value"@),
        ]);
        r
    }

    /// Whether the context was cancelled or its deadline is reached. The flag is
    /// shared with other threads and the deadline is held against the clock, so
    /// neither reading is known beforehand.
    pub fn is_cancelled(&self) -> (r: bool)
        ensures
            found_cancelled(*self, r),
    {
        let flag = flag_value(&self.cancelled);
        let now = clock_now();
        let reached = match &self.deadline {
            Some(deadline) => Some(clock_reached(&now, deadline)),
            None => None,
        };
        let (cancelled, raise) = decide_cancelled(flag, reached);
        if raise {
            let was = raise_flag(&self.cancelled);
            assert(flag_was_raised(*self.cancelled, was));
        }
        assert(cancelled == cancellation(flag, deadline_reached(self.deadline, now)).0);
        cancelled
    }

    /// The platform services.
    pub fn services(&self) -> (r: Option<&Services>)
        ensures
            match r {
                Some(services) => self.platform_services is Some && *services
                    == *self.platform_services->0,
                None => self.platform_services is None,
            },
    {
        match &self.platform_services {
            Some(services) => Some(services),
            None => None,
        }
    }

    /// A value of the block's node configuration.
    pub fn config_get(&self, key: &str) -> (r: Option<&str>)
        ensures
            match r {
                Some(value) => config_value(self.config@, key@) == Some(value@),
                None => config_value(self.config@, key@) is None,
            },
    {
        match self.config.get(key) {
            Some(value) => Some(value.as_str()),
            None => None,
        }
    }
}

} // verus!
