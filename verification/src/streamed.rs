//! Laws of streamed completions: nothing that an endpoint streams is lost, added or reordered on
//! its way to the events of a turn.

use vstd::prelude::*;

use crate::engine;
use crate::engine::{ParsedChunkView, SourceItemView, TurnView};
use crate::fragments;
use crate::json;
use crate::json::JsonView;
use crate::model::{
    AgentEventView, ChatMessageView, LocalAgentErrorView, LocalEndpointConfigView,
    ToolDefinitionView,
};
use crate::openai;
use crate::openai::{
    ChunkChoiceView, ChunkDeltaView, ChunkResponseView, PartialToolCallView, SourceFailureView,
    StreamAccumulatorView, ToolCallDeltaView,
};
use crate::text;

verus! {

/// The text of events, one piece after the other.
pub open spec fn spoken(events: Seq<AgentEventView>) -> Seq<char>
    decreases events.len(),
{
    if events.len() == 0 {
        Seq::empty()
    } else {
        (match events[0] {
            AgentEventView::TextDelta(piece) => piece,
            _ => Seq::empty(),
        }) + spoken(events.drop_first())
    }
}

/// The reasoning of events, one piece after the other.
pub open spec fn reasoned(events: Seq<AgentEventView>) -> Seq<char>
    decreases events.len(),
{
    if events.len() == 0 {
        Seq::empty()
    } else {
        (match events[0] {
            AgentEventView::ReasoningDelta(piece) => piece,
            _ => Seq::empty(),
        }) + reasoned(events.drop_first())
    }
}

/// The tokens that events report, one report after the other.
pub open spec fn reported(events: Seq<AgentEventView>) -> Seq<(u64, u64)>
    decreases events.len(),
{
    if events.len() == 0 {
        Seq::empty()
    } else {
        (match events[0] {
            AgentEventView::Usage { input_tokens, output_tokens } => seq![
                (input_tokens, output_tokens),
            ],
            _ => Seq::empty(),
        }) + reported(events.drop_first())
    }
}

/// A text that may be absent.
pub open spec fn content_of(value: Option<Seq<char>>) -> Seq<char> {
    match value {
        Some(content) => content,
        None => Seq::empty(),
    }
}

/// The content that choices carry, one after the other.
pub open spec fn contents(choices: Seq<ChunkChoiceView>) -> Seq<char>
    decreases choices.len(),
{
    if choices.len() == 0 {
        Seq::empty()
    } else {
        content_of(choices[0].delta.content) + contents(choices.drop_first())
    }
}

/// The reasoning that a delta carries: that of the first of its three fields that is not empty.
pub open spec fn thought(delta: ChunkDeltaView) -> Seq<char> {
    if content_of(delta.reasoning_content).len() > 0 {
        content_of(delta.reasoning_content)
    } else if content_of(delta.reasoning).len() > 0 {
        content_of(delta.reasoning)
    } else {
        content_of(delta.reasoning_text)
    }
}

/// The reasoning that choices carry, one after the other.
pub open spec fn thoughts(choices: Seq<ChunkChoiceView>) -> Seq<char>
    decreases choices.len(),
{
    if choices.len() == 0 {
        Seq::empty()
    } else {
        thought(choices[0].delta) + thoughts(choices.drop_first())
    }
}

proof fn spoken_adds(left: Seq<AgentEventView>, right: Seq<AgentEventView>)
    ensures
        spoken(left + right) == spoken(left) + spoken(right),
        reasoned(left + right) == reasoned(left) + reasoned(right),
        reported(left + right) == reported(left) + reported(right),
    decreases left.len(),
{
    if left.len() == 0 {
        assert(left + right =~= right);
        assert(spoken(left) + spoken(right) =~= spoken(right));
        assert(reasoned(left) + reasoned(right) =~= reasoned(right));
        assert(reported(left) + reported(right) =~= reported(right));
    } else {
        assert((left + right).drop_first() =~= left.drop_first() + right);
        spoken_adds(left.drop_first(), right);
        assert(spoken(left + right) =~= spoken(left) + spoken(right));
        assert(reasoned(left + right) =~= reasoned(left) + reasoned(right));
        assert(reported(left + right) =~= reported(left) + reported(right));
    }
}

proof fn contents_push(choices: Seq<ChunkChoiceView>, last: ChunkChoiceView)
    ensures
        contents(choices.push(last)) == contents(choices) + content_of(last.delta.content),
        thoughts(choices.push(last)) == thoughts(choices) + thought(last.delta),
    decreases choices.len(),
{
    if choices.len() == 0 {
        let rest = choices.push(last).drop_first();
        assert(rest =~= Seq::empty());
        assert(contents(rest) =~= Seq::empty());
        assert(thoughts(rest) =~= Seq::empty());
        assert(contents(choices.push(last)) =~= contents(choices) + content_of(last.delta.content));
        assert(thoughts(choices.push(last)) =~= thoughts(choices) + thought(last.delta));
    } else {
        assert(choices.push(last).drop_first() =~= choices.drop_first().push(last));
        contents_push(choices.drop_first(), last);
        assert(contents(choices.push(last)) =~= contents(choices) + content_of(last.delta.content));
        assert(thoughts(choices.push(last)) =~= thoughts(choices) + thought(last.delta));
    }
}

/// Whether events are tool calls only.
pub open spec fn only_calls(events: Seq<AgentEventView>) -> bool {
    forall|i: int| 0 <= i < events.len() ==> (#[trigger] events[i]) is ToolCall
}

proof fn calls_say_nothing(events: Seq<AgentEventView>)
    requires
        only_calls(events),
    ensures
        spoken(events) == Seq::<char>::empty(),
        reasoned(events) == Seq::<char>::empty(),
        reported(events) == Seq::<(u64, u64)>::empty(),
    decreases events.len(),
{
    if events.len() > 0 {
        let rest = events.drop_first();
        assert forall|i: int| 0 <= i < rest.len() implies (#[trigger] rest[i]) is ToolCall by {
            assert(rest[i] == events[i + 1]);
        }
        calls_say_nothing(rest);
        assert(events[0] is ToolCall);
        assert(spoken(events) =~= Seq::empty());
        assert(reasoned(events) =~= Seq::empty());
        assert(reported(events) =~= Seq::empty());
    }
}

proof fn flushed_are_calls(pending: Seq<PartialToolCallView>)
    requires
        openai::flushed(pending) is Ok,
    ensures
        only_calls(openai::flushed(pending)->Ok_0),
{
    fragments::calls_come_in_order(pending, pending.len());
}

proof fn immediate_says(delta: ChunkDeltaView)
    ensures
        spoken(openai::immediate(delta)) == content_of(delta.content),
        reasoned(openai::immediate(delta)) == thought(delta),
        reported(openai::immediate(delta)) == Seq::<(u64, u64)>::empty(),
{
    let events = openai::immediate(delta);
    reveal_with_fuel(spoken, 3);
    reveal_with_fuel(reasoned, 3);
    reveal_with_fuel(reported, 3);
    if events.len() > 0 {
        assert(events.drop_first().len() == events.len() - 1);
        if events.len() == 2 {
            assert(events.drop_first()[0] == events[1]);
        }
    }
    assert(spoken(events) =~= content_of(delta.content));
    assert(reasoned(events) =~= thought(delta));
    assert(reported(events) =~= Seq::empty());
}

proof fn choices_say(accumulator: StreamAccumulatorView, choices: Seq<ChunkChoiceView>, count: nat)
    requires
        count <= choices.len(),
        openai::after_choices(accumulator, choices, count).outcome is Ok,
    ensures
        ({
            let events = openai::after_choices(accumulator, choices, count).outcome->Ok_0;
            &&& spoken(events) == contents(choices.take(count as int))
            &&& reasoned(events) == thoughts(choices.take(count as int))
            &&& reported(events) == Seq::<(u64, u64)>::empty()
        }),
    decreases count,
{
    if count == 0 {
        assert(choices.take(0) =~= Seq::empty());
    } else {
        let less = (count - 1) as nat;
        let before = openai::after_choices(accumulator, choices, less);
        choices_say(accumulator, choices, less);
        let choice = choices[count - 1];
        let events = before.outcome->Ok_0;
        let now = openai::immediate(choice.delta);
        assert(choices.take(count as int) =~= choices.take(less as int).push(choice));
        contents_push(choices.take(less as int), choice);
        immediate_says(choice.delta);
        spoken_adds(events, now);
        assert(reported(events) + reported(now) =~= Seq::empty());
        if choice.finish_reason is Some {
            let pending = openai::with_fragments(
                before.accumulator.pending_tool_calls,
                choice.delta.tool_calls,
                choice.delta.tool_calls.len(),
            );
            let calls = openai::flushed(pending)->Ok_0;
            flushed_are_calls(pending);
            calls_say_nothing(calls);
            spoken_adds(events + now, calls);
            assert(spoken(events + now) + Seq::<char>::empty() =~= spoken(events + now));
            assert(reasoned(events + now) + Seq::<char>::empty() =~= reasoned(events + now));
            assert(reported(events + now) + Seq::<(u64, u64)>::empty() =~= Seq::empty());
        }
    }
}

/// The events of a chunk say exactly what its choices carry: the text events joined are the
/// contents joined, the reasoning events joined are the reasoning joined, and the tokens are those
/// that the chunk reports. No character is lost, added or reordered.
pub proof fn chunk_says_its_content(accumulator: StreamAccumulatorView, chunk: ChunkResponseView)
    requires
        openai::after_chunk(accumulator, chunk).outcome is Ok,
    ensures
        ({
            let events = openai::after_chunk(accumulator, chunk).outcome->Ok_0;
            &&& spoken(events) == contents(chunk.choices)
            &&& reasoned(events) == thoughts(chunk.choices)
            &&& reported(events) == (match chunk.usage {
                Some(usage) => seq![(usage.prompt_tokens, usage.completion_tokens)],
                None => Seq::empty(),
            })
        }),
{
    let chosen = openai::after_choices(accumulator, chunk.choices, chunk.choices.len());
    choices_say(accumulator, chunk.choices, chunk.choices.len());
    assert(chunk.choices.take(chunk.choices.len() as int) =~= chunk.choices);
    if let Some(usage) = chunk.usage {
        let events = chosen.outcome->Ok_0;
        let last = AgentEventView::Usage {
            input_tokens: usage.prompt_tokens,
            output_tokens: usage.completion_tokens,
        };
        assert(events.push(last) =~= events + seq![last]);
        spoken_adds(events, seq![last]);
        let one = seq![last];
        assert(one.drop_first() =~= Seq::empty());
        reveal_with_fuel(spoken, 2);
        reveal_with_fuel(reasoned, 2);
        reveal_with_fuel(reported, 2);
        assert(spoken(one) =~= Seq::empty());
        assert(reasoned(one) =~= Seq::empty());
        assert(reported(one) =~= seq![(usage.prompt_tokens, usage.completion_tokens)]);
        assert(spoken(events) + Seq::<char>::empty() =~= spoken(events));
        assert(reasoned(events) + Seq::<char>::empty() =~= reasoned(events));
        assert(reported(events) + reported(one) =~= reported(one));
    }
}

/// Whether an item of a source carries a chunk, and not the end of the completion.
pub open spec fn carries_chunk(item: SourceItemView) -> bool {
    item matches SourceItemView::Message { data, parsed } && text::trim(data) != "[DONE]"@
        && parsed is Chunk
}

/// The content that the chunks of a source carry, one after the other.
pub open spec fn source_contents(items: Seq<SourceItemView>) -> Seq<char>
    decreases items.len(),
{
    if items.len() == 0 {
        Seq::empty()
    } else {
        (if carries_chunk(items[0]) {
            contents(items[0]->parsed->Chunk_0.choices)
        } else {
            Seq::empty()
        }) + source_contents(items.drop_first())
    }
}

proof fn source_contents_push(items: Seq<SourceItemView>, last: SourceItemView)
    ensures
        source_contents(items.push(last)) == source_contents(items) + (if carries_chunk(last) {
            contents(last->parsed->Chunk_0.choices)
        } else {
            Seq::empty()
        }),
    decreases items.len(),
{
    let end = if carries_chunk(last) {
        contents(last->parsed->Chunk_0.choices)
    } else {
        Seq::<char>::empty()
    };
    if items.len() == 0 {
        let rest = items.push(last).drop_first();
        assert(rest =~= Seq::empty());
        assert(source_contents(rest) =~= Seq::empty());
        assert(source_contents(items.push(last)) =~= source_contents(items) + end);
    } else {
        assert(items.push(last).drop_first() =~= items.drop_first().push(last));
        source_contents_push(items.drop_first(), last);
        assert(source_contents(items.push(last)) =~= source_contents(items) + end);
    }
}

/// The events among what a turn put out.
pub open spec fn events_in(output: Seq<Result<AgentEventView, LocalAgentErrorView>>) -> Seq<
    AgentEventView,
>
    decreases output.len(),
{
    if output.len() == 0 {
        Seq::empty()
    } else {
        (match output[0] {
            Ok(event) => seq![event],
            Err(_) => Seq::empty(),
        }) + events_in(output.drop_first())
    }
}

proof fn events_in_adds(
    left: Seq<Result<AgentEventView, LocalAgentErrorView>>,
    right: Seq<Result<AgentEventView, LocalAgentErrorView>>,
)
    ensures
        events_in(left + right) == events_in(left) + events_in(right),
    decreases left.len(),
{
    if left.len() == 0 {
        assert(left + right =~= right);
        assert(events_in(left) + events_in(right) =~= events_in(right));
    } else {
        assert((left + right).drop_first() =~= left.drop_first() + right);
        events_in_adds(left.drop_first(), right);
        assert(events_in(left + right) =~= events_in(left) + events_in(right));
    }
}

proof fn events_in_events(events: Seq<AgentEventView>)
    ensures
        events_in(
            events.map_values(
                |event: AgentEventView| Ok::<AgentEventView, LocalAgentErrorView>(event),
            ),
        ) == events,
    decreases events.len(),
{
    let output = events.map_values(
        |event: AgentEventView| Ok::<AgentEventView, LocalAgentErrorView>(event),
    );
    if events.len() > 0 {
        let rest = events.drop_first();
        events_in_events(rest);
        assert(output.drop_first() =~= rest.map_values(
            |event: AgentEventView| Ok::<AgentEventView, LocalAgentErrorView>(event),
        ));
        assert(events_in(output) =~= events);
    }
}

proof fn step_says(turn: TurnView, item: SourceItemView)
    requires
        engine::step_for(turn, item).error is None,
    ensures
        spoken(engine::step_for(turn, item).events) == (if carries_chunk(item) {
            contents(item->parsed->Chunk_0.choices)
        } else {
            Seq::empty()
        }),
{
    if carries_chunk(item) {
        chunk_says_its_content(turn.accumulator, item->parsed->Chunk_0);
    } else {
        let pending = turn.accumulator.pending_tool_calls;
        let events = engine::step_for(turn, item).events;
        if events.len() > 0 {
            let calls = openai::flushed(pending)->Ok_0;
            flushed_are_calls(pending);
            calls_say_nothing(calls);
            assert(events =~= calls + seq![AgentEventView::Done]);
            spoken_adds(calls, seq![AgentEventView::Done]);
            reveal_with_fuel(spoken, 2);
            assert(seq![AgentEventView::Done].drop_first() =~= Seq::empty());
            assert(spoken(events) =~= Seq::empty());
        }
    }
}

/// A turn that did not fail said exactly the content that its source carried up to its end: the
/// text events joined are the contents of all chunks joined, in their order.
pub proof fn turn_says_all_content(turn: TurnView, items: Seq<SourceItemView>, count: nat)
    requires
        count <= items.len(),
        count > 0 ==> !engine::run_on(turn, items, (count - 1) as nat).over,
        forall|i: int|
            0 <= i < engine::run_on(turn, items, count).output.len()
                ==> !((#[trigger] engine::run_on(turn, items, count).output[i]) is Err),
    ensures
        spoken(events_in(engine::run_on(turn, items, count).output)) == source_contents(
            items.take(count as int),
        ),
    decreases count,
{
    if count == 0 {
        assert(items.take(0) =~= Seq::empty());
    } else {
        let less = (count - 1) as nat;
        let before = engine::run_on(turn, items, less);
        let run = engine::run_on(turn, items, count);
        let item = items[count - 1];
        let step = engine::step_for(before.turn, item);
        let more = engine::put_out(step);
        assert(run.output == before.output + more);
        assert forall|i: int| 0 <= i < before.output.len() implies !((
        #[trigger] before.output[i]) is Err) by {
            assert(run.output[i] == before.output[i]);
        }
        if step.error is Some {
            assert(more.last() is Err);
            assert(run.output[run.output.len() - 1] == more.last());
        }
        if less > 0 {
            let earlier = engine::run_on(turn, items, (less - 1) as nat);
            assert(!earlier.over);
        }
        turn_says_all_content(turn, items, less);
        step_says(before.turn, item);
        events_in_adds(before.output, more);
        events_in_events(step.events);
        spoken_adds(events_in(before.output), events_in(more));
        assert(items.take(count as int) =~= items.take(less as int).push(item));
        source_contents_push(items.take(less as int), item);
    }
}

/// The arguments that fragments carry for the call with an index, one after the other.
pub open spec fn arguments_for(deltas: Seq<ToolCallDeltaView>, index: u32) -> Seq<char>
    decreases deltas.len(),
{
    if deltas.len() == 0 {
        Seq::empty()
    } else {
        (if deltas[0].index == index {
            match deltas[0].function {
                Some(function) => content_of(function.arguments),
                None => Seq::empty(),
            }
        } else {
            Seq::empty()
        }) + arguments_for(deltas.drop_first(), index)
    }
}

/// The last id that is not empty among the fragments of the call with an index.
pub open spec fn last_id(deltas: Seq<ToolCallDeltaView>, index: u32) -> Seq<char>
    decreases deltas.len(),
{
    if deltas.len() == 0 {
        Seq::empty()
    } else if deltas.last().index == index && content_of(deltas.last().id).len() > 0 {
        content_of(deltas.last().id)
    } else {
        last_id(deltas.drop_last(), index)
    }
}

/// The last name that is not empty among the fragments of the call with an index.
pub open spec fn last_name(deltas: Seq<ToolCallDeltaView>, index: u32) -> Seq<char>
    decreases deltas.len(),
{
    if deltas.len() == 0 {
        Seq::empty()
    } else if deltas.last().index == index && deltas.last().function is Some && content_of(
        deltas.last().function->0.name,
    ).len() > 0 {
        content_of(deltas.last().function->0.name)
    } else {
        last_name(deltas.drop_last(), index)
    }
}

/// Whether a pending call is made of all fragments that came for it.
pub open spec fn gathered(call: PartialToolCallView, deltas: Seq<ToolCallDeltaView>) -> bool {
    &&& exists|i: int| 0 <= i < deltas.len() && (#[trigger] deltas[i]).index == call.index
    &&& call.arguments == arguments_for(deltas, call.index)
    &&& call.id == last_id(deltas, call.index)
    &&& call.name == last_name(deltas, call.index)
}

/// Whether the pending calls are those that fragments came for, each once, in the order of their
/// indices, and each made of all of its fragments.
pub open spec fn gathers(pending: Seq<PartialToolCallView>, deltas: Seq<ToolCallDeltaView>) -> bool {
    &&& forall|i: int, j: int|
        0 <= i < j < pending.len() ==> (#[trigger] pending[i]).index < (#[trigger] pending[j]).index
    &&& forall|call: PartialToolCallView| #[trigger] pending.contains(call) ==> gathered(call, deltas)
    &&& forall|i: int|
        0 <= i < deltas.len() ==> has_call(pending, (#[trigger] deltas[i]).index)
}

/// Whether a call with an index is pending.
pub open spec fn has_call(pending: Seq<PartialToolCallView>, index: u32) -> bool {
    exists|call: PartialToolCallView| #[trigger] pending.contains(call) && call.index == index
}

proof fn arguments_for_push(deltas: Seq<ToolCallDeltaView>, last: ToolCallDeltaView, index: u32)
    ensures
        arguments_for(deltas.push(last), index) == arguments_for(deltas, index) + (if last.index
            == index {
            match last.function {
                Some(function) => content_of(function.arguments),
                None => Seq::empty(),
            }
        } else {
            Seq::empty()
        }),
        deltas.push(last).drop_last() == deltas,
    decreases deltas.len(),
{
    let end = if last.index == index {
        match last.function {
            Some(function) => content_of(function.arguments),
            None => Seq::empty(),
        }
    } else {
        Seq::<char>::empty()
    };
    assert(deltas.push(last).drop_last() =~= deltas);
    if deltas.len() == 0 {
        let rest = deltas.push(last).drop_first();
        assert(rest =~= Seq::empty());
        assert(arguments_for(rest, index) =~= Seq::empty());
        assert(arguments_for(deltas.push(last), index) =~= arguments_for(deltas, index) + end);
    } else {
        assert(deltas.push(last).drop_first() =~= deltas.drop_first().push(last));
        arguments_for_push(deltas.drop_first(), last, index);
        assert(arguments_for(deltas.push(last), index) =~= arguments_for(deltas, index) + end);
    }
}

proof fn nothing_for(deltas: Seq<ToolCallDeltaView>, index: u32)
    requires
        forall|i: int| 0 <= i < deltas.len() ==> (#[trigger] deltas[i]).index != index,
    ensures
        arguments_for(deltas, index) == Seq::<char>::empty(),
        last_id(deltas, index) == Seq::<char>::empty(),
        last_name(deltas, index) == Seq::<char>::empty(),
    decreases deltas.len(),
{
    if deltas.len() > 0 {
        let last = deltas.last();
        let before = deltas.drop_last();
        assert forall|i: int| 0 <= i < before.len() implies (#[trigger] before[i]).index
            != index by {
            assert(before[i] == deltas[i]);
        }
        nothing_for(before, index);
        assert(before.push(last) =~= deltas);
        assert(deltas[deltas.len() - 1].index != index);
        arguments_for_push(before, last, index);
        assert(arguments_for(deltas, index) =~= Seq::empty());
    }
}

proof fn fragment_is_gathered(
    pending: Seq<PartialToolCallView>,
    deltas: Seq<ToolCallDeltaView>,
    delta: ToolCallDeltaView,
)
    requires
        gathers(pending, deltas),
    ensures
        gathers(openai::with_fragment(pending, delta), deltas.push(delta)),
{
    let after = openai::with_fragment(pending, delta);
    let now = deltas.push(delta);
    let held = fragments::pending_call(pending, delta.index);
    let changed = openai::merged(held, delta);
    fragments::fragment_changes_its_call(pending, delta);
    fragments::pending_call_is_held(pending, delta.index);
    fragments::pending_call_index(pending, delta.index);
    assert(now[deltas.len() as int] == delta);
    assert(gathered(changed, now)) by {
        arguments_for_push(deltas, delta, delta.index);
        if has_call(pending, delta.index) {
            let call = choose|call: PartialToolCallView| #[trigger]
                pending.contains(call) && call.index == delta.index;
            assert(held == call);
            assert(gathered(call, deltas));
        } else {
            assert forall|i: int| 0 <= i < deltas.len() implies (#[trigger] deltas[i]).index
                != delta.index by {
                if deltas[i].index == delta.index {
                    assert(has_call(pending, deltas[i].index));
                }
            }
            assert(forall|call: PartialToolCallView| #[trigger]
                pending.contains(call) ==> call.index != delta.index);
            nothing_for(deltas, delta.index);
        }
        assert(changed.arguments =~= arguments_for(now, delta.index));
    }
    assert forall|call: PartialToolCallView| #[trigger] after.contains(call) implies gathered(
        call,
        now,
    ) by {
        if call != changed {
            assert(pending.contains(call) && call.index != delta.index);
            assert(gathered(call, deltas));
            arguments_for_push(deltas, delta, call.index);
            let i = choose|i: int|
                0 <= i < deltas.len() && (#[trigger] deltas[i]).index == call.index;
            assert(now[i] == deltas[i]);
            assert(call.arguments =~= arguments_for(now, call.index));
        }
    }
    assert forall|i: int| 0 <= i < now.len() implies has_call(
        after,
        (#[trigger] now[i]).index,
    ) by {
        if now[i].index == delta.index {
            assert(after.contains(changed));
        } else {
            assert(now[i] == deltas[i]);
            assert(has_call(pending, deltas[i].index));
            let call = choose|call: PartialToolCallView| #[trigger]
                pending.contains(call) && call.index == deltas[i].index;
            assert(after.contains(call));
        }
    }
}

proof fn fragments_are_gathered(
    pending: Seq<PartialToolCallView>,
    deltas: Seq<ToolCallDeltaView>,
    more: Seq<ToolCallDeltaView>,
    count: nat,
)
    requires
        gathers(pending, deltas),
        count <= more.len(),
    ensures
        gathers(openai::with_fragments(pending, more, count), deltas + more.take(count as int)),
    decreases count,
{
    if count == 0 {
        assert(deltas + more.take(0) =~= deltas);
    } else {
        fragments_are_gathered(pending, deltas, more, (count - 1) as nat);
        fragment_is_gathered(
            openai::with_fragments(pending, more, (count - 1) as nat),
            deltas + more.take(count - 1),
            more[count - 1],
        );
        assert(deltas + more.take(count as int) =~= (deltas + more.take(count - 1)).push(
            more[count - 1],
        ));
    }
}

/// Whether an event is the tool call that a pending call came to: under its id and name, and with
/// the arguments that its text spells, which are none where the text is blank.
pub open spec fn calls_as_gathered(event: AgentEventView, call: PartialToolCallView) -> bool {
    event matches AgentEventView::ToolCall(request) && request.id == call.id && request.name
        == call.name && if text::blank(call.arguments) {
        request.arguments == JsonView::Object(Seq::empty())
    } else {
        json::parsed_json(call.arguments) == Ok::<JsonView, Seq<char>>(request.arguments)
    }
}

proof fn blank_is_trimmed(value: Seq<char>)
    ensures
        text::blank(value) <==> text::trim(value).len() == 0,
{
    text::trim_cuts_white_space(value);
    let kept = text::trim(value);
    let from = choose|from: int|
        0 <= from && from + kept.len() <= value.len() && kept == #[trigger] value.subrange(
            from,
            from + kept.len(),
        ) && text::blank(value.subrange(0, from)) && text::blank(
            value.subrange(from + kept.len(), value.len() as int),
        );
    if kept.len() == 0 {
        let left = value.subrange(0, from);
        let right = value.subrange(from + kept.len(), value.len() as int);
        assert forall|i: int| 0 <= i < value.len() implies text::white_space(
            #[trigger] value[i],
        ) by {
            if i < from {
                assert(left[i] == value[i]);
            } else {
                assert(right[i - from] == value[i]);
            }
        }
    } else {
        assert(kept[0] == value[from]);
    }
}

proof fn calls_are_completed(pending: Seq<PartialToolCallView>, count: nat)
    requires
        count <= pending.len(),
    ensures
        match openai::completed_calls(pending, count) {
            Ok(events) => events.len() == count && forall|i: int|
                0 <= i < count ==> calls_as_gathered(#[trigger] events[i], pending[i]),
            Err(error) => exists|i: int|
                0 <= i < count && refuses_call(error, #[trigger] pending[i]),
        },
    decreases count,
{
    if count > 0 {
        calls_are_completed(pending, (count - 1) as nat);
        let last = pending[count - 1];
        blank_is_trimmed(last.arguments);
        if openai::completed_calls(pending, (count - 1) as nat) is Ok && openai::completed(
            last,
        ) is Err {
            assert(refuses_call(openai::completed(last)->Err_0, pending[count - 1])) by {
                let message = json::parsed_json(last.arguments)->Err_0;
                let full = "tool call "@ + last.name + " has malformed arguments: "@ + message;
                text::part_of_middle(
                    "tool call "@,
                    last.name,
                    " has malformed arguments: "@ + message,
                );
                assert("tool call "@ + last.name + (" has malformed arguments: "@ + message)
                    =~= full);
                text::part_of_middle(
                    "tool call "@ + last.name + " has malformed arguments: "@,
                    message,
                    Seq::empty(),
                );
                assert("tool call "@ + last.name + " has malformed arguments: "@ + message
                    + Seq::empty() =~= full);
            }
        }
    }
}

/// Whether an error refuses a call whose arguments cannot be read: it names the tool and says what
/// is wrong with the arguments.
pub open spec fn refuses_call(error: LocalAgentErrorView, call: PartialToolCallView) -> bool {
    !text::blank(call.arguments) && (json::parsed_json(call.arguments) matches Err(message) && (
    error matches LocalAgentErrorView::Parse(shown) && text::occurs_in(shown, call.name)
        && text::occurs_in(shown, message)))
}

/// The tool calls that a model streams in fragments come out once their choice is finished, each
/// whole: for every index that fragments came for one call, in the order of the indices, under the
/// last id and name that came for it, and with all of its argument fragments run together. Before
/// that, they are kept, and none is put out.
pub proof fn fragments_come_out_as_calls(
    accumulator: StreamAccumulatorView,
    deltas: Seq<ToolCallDeltaView>,
    events: Seq<AgentEventView>,
    choice: ChunkChoiceView,
)
    requires
        gathers(accumulator.pending_tool_calls, deltas),
    ensures
        ({
            let after = openai::after_choice(accumulator, events, choice);
            let all = deltas + choice.delta.tool_calls;
            if choice.finish_reason is None {
                &&& after.outcome is Ok
                &&& gathers(after.accumulator.pending_tool_calls, all)
                &&& forall|i: int|
                    events.len() <= i < after.outcome->Ok_0.len() ==> !((
                    #[trigger] after.outcome->Ok_0[i]) is ToolCall)
            } else {
                &&& after.accumulator.pending_tool_calls.len() == 0
                &&& after.accumulator.finish_reason_seen
                &&& exists|pending: Seq<PartialToolCallView>| #[trigger]
                    gathers(pending, all) && match after.outcome {
                        Ok(put_out) => events.len() + pending.len() <= put_out.len() && (forall|
                            i: int,
                        |
                            0 <= i < pending.len() ==> calls_as_gathered(
                                put_out[put_out.len() - pending.len() + i],
                                #[trigger] pending[i],
                            )) && forall|i: int|
                            events.len() <= i < put_out.len() - pending.len() ==> !((
                            #[trigger] put_out[i]) is ToolCall),
                        Err(error) => exists|i: int|
                            0 <= i < pending.len() && refuses_call(error, #[trigger] pending[i]),
                    }
            }
        }),
{
    let more = choice.delta.tool_calls;
    let pending = openai::with_fragments(accumulator.pending_tool_calls, more, more.len());
    fragments_are_gathered(accumulator.pending_tool_calls, deltas, more, more.len());
    assert(more.take(more.len() as int) =~= more);
    assert(gathers(pending, deltas + more));
    let now = openai::immediate(choice.delta);
    assert(forall|i: int| 0 <= i < now.len() ==> !((#[trigger] now[i]) is ToolCall));
    let after = openai::after_choice(accumulator, events, choice);
    if choice.finish_reason is None {
        assert forall|i: int| events.len() <= i < after.outcome->Ok_0.len() implies !((
        #[trigger] after.outcome->Ok_0[i]) is ToolCall) by {
            assert(after.outcome->Ok_0[i] == now[i - events.len()]);
        }
    } else {
        calls_are_completed(pending, pending.len());
        if let Ok(calls) = openai::flushed(pending) {
            let put_out = after.outcome->Ok_0;
            assert(put_out == events + now + calls);
            assert forall|i: int| 0 <= i < pending.len() implies calls_as_gathered(
                put_out[put_out.len() - pending.len() + i],
                #[trigger] pending[i],
            ) by {
                assert(put_out[put_out.len() - pending.len() + i] == calls[i]);
            }
            assert forall|i: int| events.len() <= i < put_out.len() - pending.len() implies !((
            #[trigger] put_out[i]) is ToolCall) by {
                assert(put_out[i] == now[i - events.len()]);
            }
        }
    }
}

/// The place of an event among those of one choice: reasoning first, then text, then tool calls.
pub open spec fn rank(event: AgentEventView) -> int {
    match event {
        AgentEventView::ReasoningDelta(_) => 0,
        AgentEventView::TextDelta(_) => 1,
        AgentEventView::ToolCall(_) => 2,
        AgentEventView::Usage { .. } => 3,
        AgentEventView::Done => 4,
    }
}

/// What a choice adds comes behind what was there, its reasoning before its text and its text
/// before its calls, and nothing that it adds is empty.
pub proof fn choice_adds_in_order(
    accumulator: StreamAccumulatorView,
    events: Seq<AgentEventView>,
    choice: ChunkChoiceView,
)
    requires
        openai::after_choice(accumulator, events, choice).outcome is Ok,
    ensures
        ({
            let all = openai::after_choice(accumulator, events, choice).outcome->Ok_0;
            &&& events.is_prefix_of(all)
            &&& forall|i: int, j: int|
                events.len() <= i < j < all.len() ==> rank(#[trigger] all[i]) <= rank(
                    #[trigger] all[j],
                )
            &&& forall|i: int|
                events.len() <= i < all.len() ==> match #[trigger] all[i] {
                    AgentEventView::ReasoningDelta(piece) => piece.len() > 0,
                    AgentEventView::TextDelta(piece) => piece.len() > 0,
                    AgentEventView::ToolCall(_) => true,
                    _ => false,
                }
        }),
{
    let now = openai::immediate(choice.delta);
    let all = openai::after_choice(accumulator, events, choice).outcome->Ok_0;
    let pending = openai::with_fragments(
        accumulator.pending_tool_calls,
        choice.delta.tool_calls,
        choice.delta.tool_calls.len(),
    );
    if choice.finish_reason is Some {
        flushed_are_calls(pending);
        let calls = openai::flushed(pending)->Ok_0;
        assert(all == events + now + calls);
        assert forall|i: int| events.len() <= i < all.len() implies all[i] == (if i < events.len()
            + now.len() {
            now[i - events.len()]
        } else {
            calls[i - events.len() - now.len()]
        }) by {}
    } else {
        assert(all == events + now);
        assert forall|i: int| events.len() <= i < all.len() implies all[i] == now[i
            - events.len()] by {}
    }
}

/// A turn knows that the model finished once a choice said so, and not before.
pub proof fn finish_is_noticed(
    accumulator: StreamAccumulatorView,
    choices: Seq<ChunkChoiceView>,
    count: nat,
)
    requires
        count <= choices.len(),
        openai::after_choices(accumulator, choices, count).outcome is Ok,
    ensures
        openai::after_choices(accumulator, choices, count).accumulator.finish_reason_seen <==> (
        accumulator.finish_reason_seen || exists|i: int|
            0 <= i < count && (#[trigger] choices[i]).finish_reason is Some),
    decreases count,
{
    if count > 0 {
        finish_is_noticed(accumulator, choices, (count - 1) as nat);
        let last = choices[count - 1];
        assert(last.finish_reason is Some ==> choices[count - 1].finish_reason is Some);
    }
}

/// What a source item makes of a turn: a chunk goes on with the chunk's events or fails with its
/// fault, a message that says so ends the turn, a chunk that cannot be read fails with what is
/// wrong and what it was, and a source that ends or fails is a failure, but for one that ends after
/// the model finished.
pub proof fn items_move_turn(turn: TurnView, item: SourceItemView)
    ensures
        ({
            let step = engine::step_for(turn, item);
            match item {
                SourceItemView::Open => step.events.len() == 0 && step.error is None && !step.over,
                SourceItemView::Message { data, parsed } => if text::trim(data) == "[DONE]"@ {
                    step.over && (step.error is None ==> step.events.len() > 0
                        && step.events.last() == AgentEventView::Done)
                } else {
                    match parsed {
                        ParsedChunkView::Chunk(chunk) => match openai::after_chunk(
                            turn.accumulator,
                            chunk,
                        ).outcome {
                            Ok(events) => step.events == events && step.error is None && !step.over,
                            Err(error) => step.error == Some(error) && step.over,
                        },
                        ParsedChunkView::Malformed(message) => step.over && (
                        step.error matches Some(LocalAgentErrorView::Parse(shown))
                            && text::ends_with(shown, data) && text::occurs_in(shown, message)),
                    }
                },
                SourceItemView::Failed(SourceFailureView::StreamEnded) | SourceItemView::Closed =>
                    step.over && (turn.accumulator.finish_reason_seen || (step.events.len() == 0
                    && step.error == Some(
                    LocalAgentErrorView::Transport(
                        "stream ended before the model finished responding"@,
                    ),
                ))),
                SourceItemView::Failed(failure) => step.over && step.events.len() == 0
                    && step.error == Some(openai::source_error(failure, turn.config.model_slug)),
            }
        }),
{
    if let SourceItemView::Message { data, parsed: ParsedChunkView::Malformed(message) } = item {
        let shown = "malformed chunk: "@ + message + ": "@ + data;
        assert(shown.subrange(shown.len() - data.len(), shown.len() as int) =~= data);
        text::part_of_middle("malformed chunk: "@, message, ": "@ + data);
        assert("malformed chunk: "@ + message + (": "@ + data) =~= shown);
    }
}

/// A reply that is read event by event takes in the text of each and nothing else, is complete at
/// `Done` and not before, and fails with the first error.
pub proof fn reply_is_read_to_its_end(reply: Seq<char>, event: AgentEventView)
    ensures
        ({
            let (after, complete) = engine::reply_step(reply, Ok(event));
            &&& after == reply + spoken(seq![event])
            &&& complete == Ok::<bool, LocalAgentErrorView>(event is Done)
        }),
        forall|error: LocalAgentErrorView| #[trigger]
            engine::reply_step(reply, Err(error)) == (reply, Err::<bool, LocalAgentErrorView>(error)),
{
    let one = seq![event];
    assert(one.drop_first() =~= Seq::empty());
    reveal_with_fuel(spoken, 2);
    let piece = match event {
        AgentEventView::TextDelta(piece) => piece,
        _ => Seq::empty(),
    };
    assert(spoken(one) =~= piece);
    assert(engine::reply_step(reply, Ok(event)).0 =~= reply + spoken(one));
}

/// Whether a body complains about the context window, in letters of any case.
pub open spec fn complains(body: Seq<char>) -> bool {
    let low = text::lower_ascii(body);
    text::occurs_in(low, "context_length_exceeded"@) || text::occurs_in(
        low,
        "maximum context length"@,
    ) || text::occurs_in(low, "context window"@) || text::occurs_in(low, "too many tokens"@)
        || text::occurs_in(low, "prompt is too long"@)
}

/// A failure of the source is told by what it means to the user: rejected credentials by the model
/// that they were for, a prompt that is too long by what the endpoint said, any other status with
/// its body, and the rest with its message.
pub proof fn failures_are_told(failure: SourceFailureView, model_slug: Seq<char>)
    ensures
        ({
            let error = openai::source_error(failure, model_slug);
            match failure {
                SourceFailureView::InvalidStatusCode { status, body } => {
                    &&& (status == 401 || status == 403) ==> error
                        == LocalAgentErrorView::InvalidApiKey { model_slug }
                    &&& (status == 400 && complains(body)) ==> error
                        == LocalAgentErrorView::ContextWindowExceeded { message: body }
                    &&& (status != 401 && status != 403 && !(status == 400 && complains(body)))
                        ==> error == LocalAgentErrorView::ErrorStatus { status, body }
                },
                SourceFailureView::InvalidContentType { content_type, body } =>
                    error matches LocalAgentErrorView::Parse(shown) && text::ends_with(shown, body)
                    && text::occurs_in(shown, "(content-type "@ + content_type + "): "@),
                SourceFailureView::Transport(message) => error == LocalAgentErrorView::Transport(
                    message,
                ),
                SourceFailureView::Utf8(message) => error == LocalAgentErrorView::Parse(message),
                SourceFailureView::Parser(message) => error == LocalAgentErrorView::Parse(message),
                SourceFailureView::InvalidLastEventId(id) =>
                    error matches LocalAgentErrorView::Parse(shown) && text::ends_with(shown, id),
                SourceFailureView::StreamEnded => error == LocalAgentErrorView::Transport(
                    "stream ended before completion"@,
                ),
            }
        }),
{
    match failure {
        SourceFailureView::InvalidStatusCode { status, body } => {
            let markers = openai::overflow_markers();
            let low = text::lower_ascii(body);
            assert(markers[0] == "context_length_exceeded"@);
            assert(markers[1] == "maximum context length"@);
            assert(markers[2] == "context window"@);
            assert(markers[3] == "too many tokens"@);
            assert(markers[4] == "prompt is too long"@);
            assert(openai::tells_overflow(body) == complains(body)) by {
                if complains(body) {
                    assert(exists|i: int|
                        0 <= i < markers.len() && text::occurs_in(low, #[trigger] markers[i]));
                }
            }
        },
        SourceFailureView::InvalidContentType { content_type, body } => {
            let head = "endpoint did not return an event stream (content-type "@;
            let shown = head + content_type + "): "@ + body;
            assert(shown.subrange(shown.len() - body.len(), shown.len() as int) =~= body);
            let start = "endpoint did not return an event stream "@;
            let named = "(content-type "@ + content_type + "): "@;
            reveal_strlit("endpoint did not return an event stream (content-type ");
            reveal_strlit("endpoint did not return an event stream ");
            reveal_strlit("(content-type ");
            assert(head =~= start + "(content-type "@);
            text::part_of_middle(start, named, body);
            assert(start + named =~= head + content_type + "): "@);
        },
        SourceFailureView::InvalidLastEventId(id) => {
            let shown = "invalid last-event-id: "@ + id;
            assert(shown.subrange(shown.len() - id.len(), shown.len() as int) =~= id);
        },
        _ => {},
    }
}

/// A request carries the transcript message by message and the tools one by one, to the model of
/// the endpoint, streamed and with usage. Each message has the role, the text and the call id of
/// its own, an assistant's calls are all there under their ids and names, and only the text of an
/// assistant that said nothing is left out.
pub proof fn request_carries_transcript(
    transcript: Seq<ChatMessageView>,
    tools: Seq<ToolDefinitionView>,
    config: LocalEndpointConfigView,
)
    ensures
        ({
            let request = openai::request_for(transcript, tools, config);
            &&& request.model == config.model_slug && request.stream
                && request.stream_options.include_usage
            &&& request.messages.len() == transcript.len()
            &&& forall|i: int|
                0 <= i < transcript.len() ==> ({
                    let sent = request.messages[i];
                    match #[trigger] transcript[i] {
                        ChatMessageView::System(content) => sent.role == "system"@ && sent.content
                            == Some(content) && sent.tool_calls.len() == 0
                            && sent.tool_call_id is None,
                        ChatMessageView::User(content) => sent.role == "user"@ && sent.content
                            == Some(content) && sent.tool_calls.len() == 0
                            && sent.tool_call_id is None,
                        ChatMessageView::Assistant { text: content, tool_calls } => sent.role
                            == "assistant"@ && content_of(sent.content) == content && (sent.content
                            is None <==> content.len() == 0) && sent.tool_call_id is None
                            && sent.tool_calls.len() == tool_calls.len() && forall|c: int|
                            0 <= c < tool_calls.len() ==> (#[trigger] tool_calls[c]).id
                                == sent.tool_calls[c].id && sent.tool_calls[c].kind == "function"@
                                && tool_calls[c].name == sent.tool_calls[c].function.name
                                && json::printed_json(tool_calls[c].arguments)
                                == sent.tool_calls[c].function.arguments,
                        ChatMessageView::Tool { tool_call_id, content } => sent.role == "tool"@
                            && sent.content == Some(content) && sent.tool_calls.len() == 0
                            && sent.tool_call_id == Some(tool_call_id),
                    }
                })
            &&& request.tools.len() == tools.len()
            &&& forall|i: int|
                0 <= i < tools.len() ==> request.tools[i].kind == "function"@
                    && request.tools[i].function.name == (#[trigger] tools[i]).name
                    && request.tools[i].function.description == tools[i].description
                    && request.tools[i].function.parameters == tools[i].parameters
        }),
{
    let request = openai::request_for(transcript, tools, config);
    assert forall|i: int| 0 <= i < transcript.len() implies request.messages[i] == openai::outgoing(
        #[trigger] transcript[i],
    ) by {}
    assert forall|i: int| 0 <= i < transcript.len() implies ((
    #[trigger] transcript[i]) matches ChatMessageView::Assistant { text: content, .. }
        ==> content_of(request.messages[i].content) == content) by {
        if let ChatMessageView::Assistant { text: content, .. } = transcript[i] {
            if content.len() == 0 {
                assert(content =~= Seq::empty());
            }
        }
    }
}

/// Completions are requested at the configured URL without the slashes at its end, with
/// `/chat/completions` behind it unless it already ends so.
pub proof fn completions_are_requested_below_base(base_url: Seq<char>)
    ensures
        exists|n: int| #[trigger]
            is_stem(base_url, n) && ({
                let stem = base_url.subrange(0, n);
                if text::ends_with(stem, "/chat/completions"@) {
                    openai::completions_url(base_url) == stem
                } else {
                    openai::completions_url(base_url) == stem + "/chat/completions"@
                }
            }),
{
    text::trim_end_mark_cuts(base_url, '/');
    let n = text::trim_end_mark(base_url, '/').len() as int;
    assert(is_stem(base_url, n));
}

/// Whether the first `n` characters of a URL are all of it but the slashes at its end.
pub open spec fn is_stem(base_url: Seq<char>, n: int) -> bool {
    &&& 0 <= n <= base_url.len()
    &&& forall|i: int| n <= i < base_url.len() ==> #[trigger] base_url[i] == '/'
    &&& n > 0 ==> base_url[n - 1] != '/'
}

/// The fragments that choices carry, one after the other.
pub open spec fn fragments_in(choices: Seq<ChunkChoiceView>) -> Seq<ToolCallDeltaView>
    decreases choices.len(),
{
    if choices.len() == 0 {
        Seq::empty()
    } else {
        choices[0].delta.tool_calls + fragments_in(choices.drop_first())
    }
}

proof fn fragments_in_push(choices: Seq<ChunkChoiceView>, last: ChunkChoiceView)
    ensures
        fragments_in(choices.push(last)) == fragments_in(choices) + last.delta.tool_calls,
    decreases choices.len(),
{
    if choices.len() == 0 {
        let rest = choices.push(last).drop_first();
        assert(rest =~= Seq::empty());
        assert(fragments_in(rest) =~= Seq::empty());
        assert(fragments_in(choices.push(last)) =~= fragments_in(choices) + last.delta.tool_calls);
    } else {
        assert(choices.push(last).drop_first() =~= choices.drop_first().push(last));
        fragments_in_push(choices.drop_first(), last);
        assert(fragments_in(choices.push(last)) =~= fragments_in(choices) + last.delta.tool_calls);
    }
}

proof fn choices_gather(
    accumulator: StreamAccumulatorView,
    deltas: Seq<ToolCallDeltaView>,
    choices: Seq<ChunkChoiceView>,
    count: nat,
)
    requires
        gathers(accumulator.pending_tool_calls, deltas),
        count <= choices.len(),
        forall|i: int| 0 <= i < count ==> (#[trigger] choices[i]).finish_reason is None,
    ensures
        openai::after_choices(accumulator, choices, count).outcome is Ok,
        gathers(
            openai::after_choices(accumulator, choices, count).accumulator.pending_tool_calls,
            deltas + fragments_in(choices.take(count as int)),
        ),
    decreases count,
{
    if count == 0 {
        assert(choices.take(0) =~= Seq::empty());
        assert(deltas + fragments_in(choices.take(0)) =~= deltas);
    } else {
        let less = (count - 1) as nat;
        choices_gather(accumulator, deltas, choices, less);
        let before = openai::after_choices(accumulator, choices, less);
        let choice = choices[count - 1];
        let so_far = deltas + fragments_in(choices.take(less as int));
        fragments_come_out_as_calls(before.accumulator, so_far, before.outcome->Ok_0, choice);
        assert(choices.take(count as int) =~= choices.take(less as int).push(choice));
        fragments_in_push(choices.take(less as int), choice);
        assert(so_far + choice.delta.tool_calls =~= deltas + fragments_in(
            choices.take(count as int),
        ));
    }
}

/// Fragments are kept from chunk to chunk until their choice is finished: after chunks that finish
/// nothing, the pending calls are made of all fragments of all of them.
pub proof fn fragments_are_kept_over_chunks(
    accumulator: StreamAccumulatorView,
    deltas: Seq<ToolCallDeltaView>,
    chunk: ChunkResponseView,
)
    requires
        gathers(accumulator.pending_tool_calls, deltas),
        forall|i: int|
            0 <= i < chunk.choices.len() ==> (#[trigger] chunk.choices[i]).finish_reason is None,
    ensures
        openai::after_chunk(accumulator, chunk).outcome is Ok,
        gathers(
            openai::after_chunk(accumulator, chunk).accumulator.pending_tool_calls,
            deltas + fragments_in(chunk.choices),
        ),
        openai::after_chunk(accumulator, chunk).accumulator.finish_reason_seen
            == accumulator.finish_reason_seen,
{
    choices_gather(accumulator, deltas, chunk.choices, chunk.choices.len());
    finish_is_noticed(accumulator, chunk.choices, chunk.choices.len());
    assert(chunk.choices.take(chunk.choices.len() as int) =~= chunk.choices);
}

/// A turn begins with no calls pending, and so with none that fragments are missing of.
pub proof fn nothing_is_gathered_at_first()
    ensures
        gathers(Seq::empty(), Seq::empty()),
{
}

/// A chunk with one choice is that choice, and then the usage that it reports.
pub proof fn chunk_of_one_choice(accumulator: StreamAccumulatorView, chunk: ChunkResponseView)
    requires
        chunk.choices.len() == 1,
    ensures
        ({
            let one = openai::after_choice(accumulator, Seq::empty(), chunk.choices[0]);
            let all = openai::after_chunk(accumulator, chunk);
            all.accumulator == one.accumulator && match one.outcome {
                Ok(events) => all.outcome matches Ok(put_out) && events.is_prefix_of(put_out)
                    && put_out.len() == events.len() + (if chunk.usage is Some {
                    1nat
                } else {
                    0nat
                }) && (chunk.usage is Some ==> put_out.last() is Usage),
                Err(error) => all.outcome == Err::<Seq<AgentEventView>, LocalAgentErrorView>(error),
            }
        }),
{
    reveal_with_fuel(openai::after_choices, 2);
}

/// The end of a completion puts out the calls that are still pending, each whole, and then `Done`,
/// or fails with a call whose arguments cannot be read.
pub proof fn end_puts_out_pending_calls(
    turn: TurnView,
    deltas: Seq<ToolCallDeltaView>,
    item: SourceItemView,
)
    requires
        gathers(turn.accumulator.pending_tool_calls, deltas),
        (item matches SourceItemView::Message { data, .. } && text::trim(data) == "[DONE]"@) || (
        turn.accumulator.finish_reason_seen && (item == SourceItemView::Closed || item
            == SourceItemView::Failed(SourceFailureView::StreamEnded))),
    ensures
        ({
            let step = engine::step_for(turn, item);
            let pending = turn.accumulator.pending_tool_calls;
            &&& step.over
            &&& match step.error {
                None => step.events.len() == pending.len() + 1 && step.events.last()
                    == AgentEventView::Done && forall|i: int|
                    0 <= i < pending.len() ==> calls_as_gathered(
                        step.events[i],
                        #[trigger] pending[i],
                    ),
                Some(error) => step.events.len() == 0 && exists|i: int|
                    0 <= i < pending.len() && refuses_call(error, #[trigger] pending[i]),
            }
        }),
{
    let pending = turn.accumulator.pending_tool_calls;
    calls_are_completed(pending, pending.len());
}

/// What a turn remembers from item to item: a chunk leaves what it makes of the accumulator, an
/// opened source leaves it as it was, and the endpoint stays the same.
pub proof fn turn_remembers(turn: TurnView, item: SourceItemView)
    ensures
        engine::turn_after(turn, item).config == turn.config,
        item is Open ==> engine::turn_after(turn, item).accumulator == turn.accumulator,
        carries_chunk(item) ==> engine::turn_after(turn, item).accumulator == openai::after_chunk(
            turn.accumulator,
            item->parsed->Chunk_0,
        ).accumulator,
{
}

proof fn same_choices(
    accumulator: StreamAccumulatorView,
    left: Seq<ChunkChoiceView>,
    right: Seq<ChunkChoiceView>,
    count: nat,
)
    requires
        count <= left.len(),
        count <= right.len(),
        forall|i: int| 0 <= i < count ==> left[i] == right[i],
    ensures
        openai::after_choices(accumulator, left, count) == openai::after_choices(
            accumulator,
            right,
            count,
        ),
    decreases count,
{
    if count > 0 {
        same_choices(accumulator, left, right, (count - 1) as nat);
    }
}

proof fn choices_split(
    accumulator: StreamAccumulatorView,
    first: Seq<ChunkChoiceView>,
    second: Seq<ChunkChoiceView>,
    count: nat,
)
    requires
        count <= second.len(),
    ensures
        ({
            let whole = openai::after_choices(
                accumulator,
                first + second,
                (first.len() + count) as nat,
            );
            let begun = openai::after_choices(accumulator, first, first.len());
            match begun.outcome {
                Err(_) => whole == begun,
                Ok(events) => {
                    let more = openai::after_choices(begun.accumulator, second, count);
                    whole.accumulator == more.accumulator && whole.outcome == (match more.outcome {
                        Ok(added) => Ok::<Seq<AgentEventView>, LocalAgentErrorView>(events + added),
                        Err(error) => Err(error),
                    })
                },
            }
        }),
    decreases count,
{
    let both = first + second;
    let begun = openai::after_choices(accumulator, first, first.len());
    if count == 0 {
        same_choices(accumulator, both, first, first.len());
        if let Ok(events) = begun.outcome {
            assert(events + Seq::<AgentEventView>::empty() =~= events);
        }
    } else {
        let less = (count - 1) as nat;
        choices_split(accumulator, first, second, less);
        let choice = second[count - 1];
        assert(both[first.len() + count - 1] == choice);
        if let Ok(events) = begun.outcome {
            let more = openai::after_choices(begun.accumulator, second, less);
            if let Ok(added) = more.outcome {
                let now = openai::immediate(choice.delta);
                assert(events + added + now =~= events + (added + now));
                let pending = openai::with_fragments(
                    more.accumulator.pending_tool_calls,
                    choice.delta.tool_calls,
                    choice.delta.tool_calls.len(),
                );
                if let Ok(calls) = openai::flushed(pending) {
                    assert(events + (added + now) + calls =~= events + (added + now + calls));
                }
            }
        }
    }
}

/// How choices are spread over chunks makes no difference: a chunk with the choices of two is what
/// the two are one after the other, with the same events, the same calls left pending, and the
/// first error of either.
pub proof fn choices_can_be_spread(
    accumulator: StreamAccumulatorView,
    first: ChunkResponseView,
    second: ChunkResponseView,
    whole: ChunkResponseView,
)
    requires
        first.usage is None,
        second.usage is None,
        whole.usage is None,
        whole.choices == first.choices + second.choices,
    ensures
        ({
            let begun = openai::after_chunk(accumulator, first);
            let all = openai::after_chunk(accumulator, whole);
            match begun.outcome {
                Err(_) => all == begun,
                Ok(events) => {
                    let more = openai::after_chunk(begun.accumulator, second);
                    all.accumulator == more.accumulator && all.outcome == (match more.outcome {
                        Ok(added) => Ok::<Seq<AgentEventView>, LocalAgentErrorView>(events + added),
                        Err(error) => Err(error),
                    })
                },
            }
        }),
{
    choices_split(accumulator, first.choices, second.choices, second.choices.len());
}

} // verus!
