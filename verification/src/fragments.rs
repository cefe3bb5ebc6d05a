//! Laws of streamed tool calls: however an endpoint cuts a call into fragments,
//! and however it interleaves the fragments of several calls, the same calls
//! come out.

use vstd::prelude::*;

use crate::model::{AgentEventView, LocalAgentErrorView};
use crate::openai;
use crate::openai::{
    ChunkChoiceView, ChunkResponseView, FunctionDeltaView, PartialToolCallView,
    StreamAccumulatorView, ToolCallDeltaView,
};

verus! {

proof fn slot_is_first(pending: Seq<PartialToolCallView>, index: u32, from: nat)
    requires
        from <= pending.len(),
    ensures
        from <= openai::call_slot(pending, index, from) <= pending.len(),
        forall|k: int|
            from <= k < openai::call_slot(pending, index, from) ==> (#[trigger] pending[k]).index
                < index,
        openai::call_slot(pending, index, from) < pending.len() ==> pending[openai::call_slot(
            pending,
            index,
            from,
        ) as int].index >= index,
    decreases pending.len() - from,
{
    if from < pending.len() && pending[from as int].index < index {
        slot_is_first(pending, index, from + 1);
    }
}

/// The pending call with an index; a blank one where there is none.
pub open spec fn pending_call(pending: Seq<PartialToolCallView>, index: u32) -> PartialToolCallView {
    let at = openai::call_slot(pending, index, 0) as int;
    if at < pending.len() && pending[at].index == index {
        pending[at]
    } else {
        openai::blank_call(index)
    }
}

pub(crate) proof fn pending_call_is_held(pending: Seq<PartialToolCallView>, index: u32)
    requires
        openai::indexed(pending),
    ensures
        forall|call: PartialToolCallView| #[trigger]
            pending.contains(call) && call.index == index ==> pending_call(pending, index) == call,
        (forall|call: PartialToolCallView| #[trigger] pending.contains(call) ==> call.index != index)
            ==> pending_call(pending, index) == openai::blank_call(index),
{
    slot_is_first(pending, index, 0);
    let at = openai::call_slot(pending, index, 0) as int;
    assert forall|call: PartialToolCallView| #[trigger]
        pending.contains(call) && call.index == index implies pending_call(pending, index)
        == call by {
        let k = pending.index_of(call);
        assert(pending[k] == call);
        if k > at {
            assert(pending[at].index < pending[k].index);
        }
        assert(k == at);
    }
    if at < pending.len() {
        assert(pending.contains(pending[at]));
    }
}

/// A fragment changes the one call that it belongs to, which it begins where there is none yet,
/// and the calls stay in the order of their indices.
pub proof fn fragment_changes_its_call(
    pending: Seq<PartialToolCallView>,
    delta: ToolCallDeltaView,
)
    requires
        openai::indexed(pending),
    ensures
        openai::indexed(openai::with_fragment(pending, delta)),
        forall|call: PartialToolCallView| #[trigger]
            openai::with_fragment(pending, delta).contains(call) <==> (pending.contains(call)
                && call.index != delta.index) || call == openai::merged(
                pending_call(pending, delta.index),
                delta,
            ),
{
    let after = openai::with_fragment(pending, delta);
    let at = openai::call_slot(pending, delta.index, 0) as int;
    slot_is_first(pending, delta.index, 0);
    let changed = openai::merged(pending_call(pending, delta.index), delta);
    assert(after[at] == changed);
    if at < pending.len() && pending[at].index == delta.index {
        assert forall|i: int, j: int| 0 <= i < j < after.len() implies (#[trigger] after[i]).index < (
        #[trigger] after[j]).index by {
            assert(after[i].index == pending[i].index);
            assert(after[j].index == pending[j].index);
        }
        assert forall|call: PartialToolCallView| #[trigger]
            after.contains(call) <==> (pending.contains(call) && call.index != delta.index) || call
            == changed by {
            if after.contains(call) {
                let k = after.index_of(call);
                if k != at {
                    assert(pending[k] == call);
                    assert(pending[k].index != pending[at].index);
                }
            }
            if pending.contains(call) && call.index != delta.index {
                let k = pending.index_of(call);
                assert(after[k] == call);
            }
        }
    } else {
        assert forall|i: int, j: int| 0 <= i < j < after.len() implies (#[trigger] after[i]).index < (
        #[trigger] after[j]).index by {
            let left = if i < at {
                i
            } else {
                i - 1
            };
            let right = if j < at {
                j
            } else {
                j - 1
            };
            if i != at {
                assert(after[i] == pending[left]);
            }
            if j != at {
                assert(after[j] == pending[right]);
                if right > at {
                    assert(pending[at].index < pending[right].index);
                }
            }
        }
        assert forall|call: PartialToolCallView| #[trigger]
            after.contains(call) <==> (pending.contains(call) && call.index != delta.index) || call
            == changed by {
            if after.contains(call) {
                let k = after.index_of(call);
                if k != at {
                    let origin = if k < at {
                        k
                    } else {
                        k - 1
                    };
                    assert(pending[origin] == call);
                    if origin > at {
                        assert(pending[at].index < pending[origin].index);
                    }
                }
            }
            if pending.contains(call) && call.index != delta.index {
                let k = pending.index_of(call);
                let moved = if k < at {
                    k
                } else {
                    k + 1
                };
                assert(after[moved] == call);
            }
        }
    }
}

proof fn same_calls(left: Seq<PartialToolCallView>, right: Seq<PartialToolCallView>)
    requires
        openai::indexed(left),
        openai::indexed(right),
        forall|call: PartialToolCallView| #[trigger] left.contains(call) <==> right.contains(call),
    ensures
        left == right,
    decreases left.len(),
{
    if left.len() == 0 {
        if right.len() > 0 {
            assert(right.contains(right[0]));
            assert(left.contains(right[0]));
        }
        assert(left =~= right);
    } else {
        assert(left.contains(left[0]));
        let r = right.index_of(left[0]);
        assert(right[r] == left[0]);
        assert(right.contains(right[0]));
        assert(left.contains(right[0]));
        let l = left.index_of(right[0]);
        assert(left[l] == right[0]);
        if r > 0 {
            assert(right[0].index < right[r].index);
            if l > 0 {
                assert(left[0].index < left[l].index);
            }
        }
        assert(right[0] == left[0]);
        let left_rest = left.drop_first();
        let right_rest = right.drop_first();
        assert forall|call: PartialToolCallView| #[trigger]
            left_rest.contains(call) <==> right_rest.contains(call) by {
            if left_rest.contains(call) {
                let k = left_rest.index_of(call);
                assert(left[k + 1] == call);
                assert(left.contains(call));
                let m = right.index_of(call);
                assert(right[m] == call);
                assert(left[0].index < left[k + 1].index);
                assert(right_rest[m - 1] == call);
            }
            if right_rest.contains(call) {
                let k = right_rest.index_of(call);
                assert(right[k + 1] == call);
                assert(right.contains(call));
                assert(left.contains(call));
                let m = left.index_of(call);
                assert(left[m] == call);
                assert(right[0].index < right[k + 1].index);
                assert(left_rest[m - 1] == call);
            }
        }
        same_calls(left_rest, right_rest);
        assert(left =~= seq![left[0]] + left_rest);
        assert(right =~= seq![right[0]] + right_rest);
    }
}

/// Two texts run together, where there are any.
pub open spec fn run_on(first: Option<Seq<char>>, second: Option<Seq<char>>) -> Option<Seq<char>> {
    match (first, second) {
        (Some(first), Some(second)) => Some(first + second),
        (Some(first), None) => Some(first),
        (None, second) => second,
    }
}

/// The later of two texts that is not empty.
pub open spec fn later(first: Option<Seq<char>>, second: Option<Seq<char>>) -> Option<Seq<char>> {
    if openai::filled(second) is Some {
        second
    } else {
        first
    }
}

/// Two fragments of one call as one.
pub open spec fn joined(first: ToolCallDeltaView, second: ToolCallDeltaView) -> ToolCallDeltaView {
    ToolCallDeltaView {
        index: first.index,
        id: later(first.id, second.id),
        function: match (first.function, second.function) {
            (Some(one), Some(two)) => Some(
                FunctionDeltaView {
                    name: later(one.name, two.name),
                    arguments: run_on(one.arguments, two.arguments),
                },
            ),
            (Some(one), None) => Some(one),
            (None, two) => two,
        },
    }
}

/// It makes no difference whether a part of a call comes in one fragment or in two: the arguments
/// run together, and an id or a name stays until a later one comes.
pub proof fn fragments_can_be_joined(
    pending: Seq<PartialToolCallView>,
    first: ToolCallDeltaView,
    second: ToolCallDeltaView,
)
    requires
        openai::indexed(pending),
        first.index == second.index,
    ensures
        openai::with_fragment(openai::with_fragment(pending, first), second)
            == openai::with_fragment(pending, joined(first, second)),
{
    let middle = openai::with_fragment(pending, first);
    let left = openai::with_fragment(middle, second);
    let right = openai::with_fragment(pending, joined(first, second));
    fragment_changes_its_call(pending, first);
    fragment_changes_its_call(middle, second);
    fragment_changes_its_call(pending, joined(first, second));
    pending_call_is_held(middle, second.index);
    let held = pending_call(pending, first.index);
    let once = openai::merged(held, first);
    pending_call_index(pending, first.index);
    assert(middle.contains(once));
    assert(pending_call(middle, second.index) == once);
    assert(openai::merged(once, second) == openai::merged(held, joined(first, second))) by {
        let a = openai::merged(once, second);
        let b = openai::merged(held, joined(first, second));
        assert(a.arguments =~= b.arguments);
    }
    same_calls(left, right);
}

pub(crate) proof fn pending_call_index(pending: Seq<PartialToolCallView>, index: u32)
    ensures
        pending_call(pending, index).index == index,
{
}

/// Fragments of different calls do not mix, in whatever order they come.
pub proof fn fragments_do_not_mix(
    pending: Seq<PartialToolCallView>,
    first: ToolCallDeltaView,
    second: ToolCallDeltaView,
)
    requires
        openai::indexed(pending),
        first.index != second.index,
    ensures
        openai::with_fragment(openai::with_fragment(pending, first), second)
            == openai::with_fragment(openai::with_fragment(pending, second), first),
{
    let one = openai::with_fragment(pending, first);
    let two = openai::with_fragment(pending, second);
    fragment_changes_its_call(pending, first);
    fragment_changes_its_call(pending, second);
    fragment_changes_its_call(one, second);
    fragment_changes_its_call(two, first);
    pending_call_index(pending, first.index);
    pending_call_index(pending, second.index);
    other_call_is_kept(pending, first, second.index);
    other_call_is_kept(pending, second, first.index);
    same_calls(openai::with_fragment(one, second), openai::with_fragment(two, first));
}

proof fn other_call_is_kept(
    pending: Seq<PartialToolCallView>,
    delta: ToolCallDeltaView,
    index: u32,
)
    requires
        openai::indexed(pending),
        delta.index != index,
    ensures
        pending_call(openai::with_fragment(pending, delta), index) == pending_call(pending, index),
{
    let after = openai::with_fragment(pending, delta);
    fragment_changes_its_call(pending, delta);
    pending_call_index(pending, delta.index);
    pending_call_is_held(pending, index);
    pending_call_is_held(after, index);
    let call = pending_call(pending, index);
    if exists|held: PartialToolCallView| #[trigger] pending.contains(held) && held.index == index {
        let held = choose|held: PartialToolCallView| #[trigger]
            pending.contains(held) && held.index == index;
        assert(after.contains(held));
    } else {
        assert forall|held: PartialToolCallView| #[trigger] after.contains(held) implies held.index
            != index by {
            if held.index == index {
                assert(pending.contains(held));
            }
        }
    }
}

proof fn fragments_keep_order(
    pending: Seq<PartialToolCallView>,
    deltas: Seq<ToolCallDeltaView>,
    count: nat,
)
    requires
        openai::indexed(pending),
    ensures
        openai::indexed(openai::with_fragments(pending, deltas, count)),
    decreases count,
{
    if count > 0 {
        fragments_keep_order(pending, deltas, (count - 1) as nat);
        fragment_changes_its_call(
            openai::with_fragments(pending, deltas, (count - 1) as nat),
            deltas[count - 1],
        );
    }
}

proof fn choices_keep_order(
    accumulator: StreamAccumulatorView,
    choices: Seq<ChunkChoiceView>,
    count: nat,
)
    requires
        openai::indexed(accumulator.pending_tool_calls),
    ensures
        openai::indexed(
            openai::after_choices(accumulator, choices, count).accumulator.pending_tool_calls,
        ),
    decreases count,
{
    if count > 0 {
        choices_keep_order(accumulator, choices, (count - 1) as nat);
        let before = openai::after_choices(accumulator, choices, (count - 1) as nat);
        fragments_keep_order(
            before.accumulator.pending_tool_calls,
            choices[count - 1].delta.tool_calls,
            choices[count - 1].delta.tool_calls.len(),
        );
    }
}

/// The pending calls stay in the order of their indices, no index twice, whatever chunks come.
pub proof fn chunk_keeps_order(accumulator: StreamAccumulatorView, chunk: ChunkResponseView)
    requires
        openai::indexed(accumulator.pending_tool_calls),
    ensures
        openai::indexed(openai::after_chunk(accumulator, chunk).accumulator.pending_tool_calls),
{
    choices_keep_order(accumulator, chunk.choices, chunk.choices.len());
}

/// The calls that are put out are the pending ones, each once, in the order of their indices.
pub proof fn calls_come_in_order(pending: Seq<PartialToolCallView>, count: nat)
    requires
        count <= pending.len(),
        openai::completed_calls(pending, count) is Ok,
    ensures
        ({
            let events = openai::completed_calls(pending, count)->Ok_0;
            events.len() == count && forall|i: int|
                0 <= i < count ==> (#[trigger] events[i]) is ToolCall && openai::completed(
                    pending[i],
                ) == Ok::<AgentEventView, LocalAgentErrorView>(events[i])
        }),
    decreases count,
{
    if count > 0 {
        calls_come_in_order(pending, (count - 1) as nat);
    }
}

} // verus!
