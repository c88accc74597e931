//! What crosses the guest boundary, and what it stands for.
use vstd::prelude::*;

use crate::block::BlockInfoView;
use crate::laws::metadata::{
    only_keys_of_pairs_count, pairs_are_key_and_value, the_last_pair_of_a_key_counts,
};
use crate::meta::{pairs_map, wire_pairs};
use crate::types::{
    action_name_is_read_back, Action, InstanceMode, LifecycleType, MessageView, ResultView,
};
use crate::wasm::format::{
    message_is_read_back, modes_named, result_is_read_back, WasmBlockInfo, WasmMessage, WasmResult,
};
use crate::wasm::packed::packed;

verus! {

/// Whether a map is what a list of pairs says: a key that no later pair has gives
/// its value, and there are no other keys.
pub open spec fn says(pairs: Seq<[String; 2]>, map: Map<Seq<char>, Seq<char>>) -> bool {
    &&& forall|i: int|
        0 <= i < pairs.len() && (forall|j: int|
            i < j < pairs.len() ==> (#[trigger] pairs[j])@[0]@ != pairs[i]@[0]@)
            ==> map.contains_key((#[trigger] pairs[i])@[0]@) && map[pairs[i]@[0]@]
            == pairs[i]@[1]@
    &&& forall|key: Seq<char>| #[trigger]
        map.contains_key(key) ==> exists|i: int|
            0 <= i < pairs.len() && (#[trigger] pairs[i])@[0]@ == key
}

/// A list of pairs says the map that it is read as.
pub proof fn pairs_say_their_map(pairs: Seq<[String; 2]>)
    ensures
        says(pairs, pairs_map(wire_pairs(pairs))),
{
    let wire = wire_pairs(pairs);
    let map = pairs_map(wire);
    assert forall|i: int|
        0 <= i < pairs.len() && (forall|j: int|
            i < j < pairs.len() ==> (#[trigger] pairs[j])@[0]@
                != pairs[i]@[0]@) implies map.contains_key((#[trigger] pairs[i])@[0]@)
        && map[pairs[i]@[0]@] == pairs[i]@[1]@ by {
        pairs_are_key_and_value(pairs, i);
        assert forall|j: int| i < j < wire.len() implies #[trigger] wire[j].0 != wire[i].0 by {
            pairs_are_key_and_value(pairs, j);
            assert(pairs[j]@[0]@ != pairs[i]@[0]@);
        }
        the_last_pair_of_a_key_counts(wire, i);
    }
    assert forall|key: Seq<char>| #[trigger] map.contains_key(key) implies exists|i: int|
        0 <= i < pairs.len() && (#[trigger] pairs[i])@[0]@ == key by {
        if forall|i: int| 0 <= i < wire.len() ==> #[trigger] wire[i].0 != key {
            only_keys_of_pairs_count(wire, key);
        }
        let i = choose|i: int| 0 <= i < wire.len() && #[trigger] wire[i].0 == key;
        assert(pairs[i]@[0]@ == key);
    }
}

/// A message is read with its kind, its bytes and what its pairs say.
pub proof fn messages_are_read_field_by_field(wire: WasmMessage)
    ensures
        wire.meaning().kind == wire.kind@,
        wire.meaning().data == wire.data@,
        says(wire.meta@, wire.meaning().meta),
{
    pairs_say_their_map(wire.meta@);
}

/// A message is written with its kind, its bytes and pairs that say its metadata.
pub proof fn messages_are_written_field_by_field(msg: MessageView, wire: WasmMessage)
    requires
        wire.writes(msg),
    ensures
        wire.kind@ == msg.kind,
        wire.data@ == msg.data,
        says(wire.meta@, msg.meta),
{
    message_is_read_back(msg, wire);
    messages_are_read_field_by_field(wire);
}

/// A result is read with its action, its response and its error: there is one
/// where there is one on the boundary, with the same bytes, code and text, and
/// with what its pairs say.
pub proof fn results_are_read_field_by_field(wire: WasmResult)
    ensures
        wire.meaning().response is Some <==> wire.response is Some,
        wire.response is Some ==> wire.meaning().response->0.data == wire.response->0.data@
            && says(wire.response->0.meta@, wire.meaning().response->0.meta),
        wire.meaning().error is Some <==> wire.error is Some,
        wire.error is Some ==> wire.meaning().error->0.code == wire.error->0.code@
            && wire.meaning().error->0.message == wire.error->0.message@ && says(
            wire.error->0.meta@,
            wire.meaning().error->0.meta,
        ),
        wire.meaning().message is None,
        wire.action@ == "continue"@ ==> wire.meaning().action == Action::Continue,
        wire.action@ == "respond"@ ==> wire.meaning().action == Action::Respond,
        wire.action@ == "drop"@ ==> wire.meaning().action == Action::Drop,
        wire.action@ == "error"@ ==> wire.meaning().action == Action::Error,
        wire.action@ != "respond"@ && wire.action@ != "drop"@ && wire.action@ != "error"@
            ==> wire.meaning().action == Action::Continue,
{
    actions_have_names();
    if wire.response is Some {
        pairs_say_their_map(wire.response->0.meta@);
    }
    if wire.error is Some {
        pairs_say_their_map(wire.error->0.meta@);
    }
}

/// A result is written with the name of its action, and with a response and an
/// error exactly where it has them, field by field.
pub proof fn results_are_written_field_by_field(result: ResultView, wire: WasmResult)
    requires
        wire.writes(result),
    ensures
        result.action == Action::Continue ==> wire.action@ == "continue"@,
        result.action == Action::Respond ==> wire.action@ == "respond"@,
        result.action == Action::Drop ==> wire.action@ == "drop"@,
        result.action == Action::Error ==> wire.action@ == "error"@,
        wire.response is Some <==> result.response is Some,
        result.response is Some ==> wire.response->0.data@ == result.response->0.data && says(
            wire.response->0.meta@,
            result.response->0.meta,
        ),
        wire.error is Some <==> result.error is Some,
        result.error is Some ==> wire.error->0.code@ == result.error->0.code
            && wire.error->0.message@ == result.error->0.message && says(
            wire.error->0.meta@,
            result.error->0.meta,
        ),
{
    result_is_read_back(result, wire);
    results_are_read_field_by_field(wire);
}

/// The names of the actions.
pub proof fn actions_have_names()
    ensures
        Action::Continue.name() == "continue"@,
        Action::Respond.name() == "respond"@,
        Action::Drop.name() == "drop"@,
        Action::Error.name() == "error"@,
        Action::named("continue"@) == Action::Continue,
        Action::named("respond"@) == Action::Respond,
        Action::named("drop"@) == Action::Drop,
        Action::named("error"@) == Action::Error,
{
    action_name_is_read_back(Action::Continue);
    action_name_is_read_back(Action::Respond);
    action_name_is_read_back(Action::Drop);
    action_name_is_read_back(Action::Error);
}

/// The names of the instance modes, and that nothing else is one.
pub proof fn modes_have_names(name: Seq<char>)
    ensures
        InstanceMode::named("per-node"@) == Some(InstanceMode::PerNode),
        InstanceMode::named("singleton"@) == Some(InstanceMode::Singleton),
        InstanceMode::named("per-chain"@) == Some(InstanceMode::PerChain),
        InstanceMode::named("per-execution"@) == Some(InstanceMode::PerExecution),
        name != "per-node"@ && name != "singleton"@ && name != "per-chain"@ && name
            != "per-execution"@ ==> InstanceMode::named(name) is None,
{
    reveal_strlit("per-node");
    reveal_strlit("singleton");
    reveal_strlit("per-chain");
    reveal_strlit("per-execution");
    assert("per-node"@.len() == 8 && "singleton"@.len() == 9 && "per-chain"@.len() == 9);
    assert("per-execution"@.len() == 13);
    assert("singleton"@[0] != "per-chain"@[0]);
}

/// The names of the points in the life of a block.
pub proof fn lifecycle_points_have_names()
    ensures
        LifecycleType::Init.name() == "init"@,
        LifecycleType::Start.name() == "start"@,
        LifecycleType::Stop.name() == "stop"@,
{
}

/// A self-description is read field by field. A block whose mode has no such name
/// has one instance per node.
pub proof fn descriptions_are_read_field_by_field(wire: WasmBlockInfo)
    ensures
        wire.meaning().name == wire.name@,
        wire.meaning().version == wire.version@,
        wire.meaning().interface == wire.interface@,
        wire.meaning().summary == wire.summary@,
        wire.meaning().admin_ui is None,
        InstanceMode::named(wire.instance_mode@) is Some ==> wire.meaning().instance_mode
            == InstanceMode::named(wire.instance_mode@)->0,
        InstanceMode::named(wire.instance_mode@) is None ==> wire.meaning().instance_mode
            == InstanceMode::PerNode,
        wire.meaning().allowed_modes == modes_named(wire.allowed_modes@),
{
}

/// Modes are read one after the other: each name adds its mode behind those of
/// the names before it, and one that no mode has adds nothing.
pub proof fn modes_are_read_in_order(names: Seq<String>, name: String)
    ensures
        modes_named(Seq::empty()).len() == 0,
        InstanceMode::named(name@) is Some ==> modes_named(names.push(name)) == modes_named(
            names,
        ).push(InstanceMode::named(name@)->0),
        InstanceMode::named(name@) is None ==> modes_named(names.push(name)) == modes_named(names),
{
    assert(names.push(name).drop_last() =~= names);
}

/// What stands in for a self-description says so, and why.
pub proof fn stand_ins_say_so(summary: Seq<char>)
    ensures
        BlockInfoView::unknown(summary) == (BlockInfoView {
            name: "unknown"@,
            version: "0.0.0"@,
            interface: "error"@,
            summary,
            instance_mode: InstanceMode::PerNode,
            allowed_modes: Seq::empty(),
            admin_ui: None,
        }),
{
}

/// A pointer is packed into the high 32 bits, and a length into the low ones.
pub proof fn pointers_are_high_and_lengths_low(ptr: i32, len: i32, pair: i64)
    requires
        pair == packed(ptr, len),
    ensures
        ptr == (pair >> 32) as i32,
        len == (pair & 0xFFFF_FFFF) as i32,
{
    let low = len as u32;
    assert(pair == ptr * 0x1_0000_0000 + low);
    assert(pair == ((ptr as i64) << 32) | (low as i64)) by {
        assert((((ptr as i64) << 32) | (low as i64)) == ptr * 0x1_0000_0000 + low) by (bit_vector);
    }
    assert((((ptr as i64) << 32) | (low as i64)) >> 32 == ptr as i64) by (bit_vector);
    assert((((((ptr as i64) << 32) | (low as i64)) & 0xFFFF_FFFF) as i32) == (low as i32))
        by (bit_vector);
    assert((len as u32) as i32 == len) by (bit_vector);
    assert((ptr as i64) as i32 == ptr) by (bit_vector);
}

} // verus!
