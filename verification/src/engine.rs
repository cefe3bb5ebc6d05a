//! The turn loop: one completion per turn, from the items of an event source to
//! neutral events. The host performs the requests; what it hears is handed over
//! item by item. After tool calls the host goes on with another turn whose
//! transcript has their results.

use vstd::prelude::*;

use crate::fragments;
use crate::keys;
use crate::model::{
    AgentEvent, AgentEventView, LocalAgentError, LocalAgentErrorView, LocalEndpointConfig,
    LocalEndpointConfigView,
};
use crate::openai;
use crate::openai::{
    ChunkChoiceView, ChunkResponse, ChunkResponseView, PartialToolCallView, SourceFailure,
    SourceFailureView, StreamAccumulator, StreamAccumulatorView,
};
use crate::text;

verus! {

/// What became of reading a message of the source as a chunk.
#[derive(Debug, PartialEq)]
pub enum ParsedChunk {
    Chunk(ChunkResponse),
    /// Why the message is no chunk.
    Malformed(String),
}

#[verifier::ext_equal]
pub enum ParsedChunkView {
    Chunk(ChunkResponseView),
    Malformed(Seq<char>),
}

impl DeepView for ParsedChunk {
    type V = ParsedChunkView;

    open spec fn deep_view(&self) -> ParsedChunkView {
        match self {
            ParsedChunk::Chunk(value) => ParsedChunkView::Chunk(value.deep_view()),
            ParsedChunk::Malformed(value) => ParsedChunkView::Malformed(value@),
        }
    }
}

impl Clone for ParsedChunk {
    fn clone(&self) -> (copy: Self)
        ensures
            copy.deep_view() == self.deep_view(),
    {
        match self {
            ParsedChunk::Chunk(value) => ParsedChunk::Chunk(value.clone()),
            ParsedChunk::Malformed(value) => ParsedChunk::Malformed(value.clone()),
        }
    }
}

/// What the host hears of the event source.
#[derive(Debug, PartialEq)]
pub enum SourceItem {
    Open,
    Message { data: String, parsed: ParsedChunk },
    Failed(SourceFailure),
    /// The source has nothing more.
    Closed,
}

#[verifier::ext_equal]
pub enum SourceItemView {
    Open,
    Message { data: Seq<char>, parsed: ParsedChunkView },
    Failed(SourceFailureView),
    Closed,
}

impl DeepView for SourceItem {
    type V = SourceItemView;

    open spec fn deep_view(&self) -> SourceItemView {
        match self {
            SourceItem::Open => SourceItemView::Open,
            SourceItem::Message { data, parsed } => SourceItemView::Message {
                data: data@,
                parsed: parsed.deep_view(),
            },
            SourceItem::Failed(value) => SourceItemView::Failed(value.deep_view()),
            SourceItem::Closed => SourceItemView::Closed,
        }
    }
}

impl Clone for SourceItem {
    fn clone(&self) -> (copy: Self)
        ensures
            copy.deep_view() == self.deep_view(),
    {
        match self {
            SourceItem::Open => SourceItem::Open,
            SourceItem::Message { data, parsed } => SourceItem::Message {
                data: data.clone(),
                parsed: parsed.clone(),
            },
            SourceItem::Failed(value) => SourceItem::Failed(value.clone()),
            SourceItem::Closed => SourceItem::Closed,
        }
    }
}

/// What to put out for an item: the events in order, then the error where there is one.
#[derive(Debug, PartialEq, Default)]
pub struct TurnStep {
    pub events: Vec<AgentEvent>,
    pub error: Option<LocalAgentError>,
    /// Whether the turn is over.
    pub over: bool,
}

#[verifier::ext_equal]
pub struct TurnStepView {
    pub events: Seq<AgentEventView>,
    pub error: Option<LocalAgentErrorView>,
    pub over: bool,
}

impl DeepView for TurnStep {
    type V = TurnStepView;

    open spec fn deep_view(&self) -> TurnStepView {
        TurnStepView {
            events: self.events.deep_view(),
            error: self.error.deep_view(),
            over: self.over,
        }
    }
}

impl Clone for TurnStep {
    fn clone(&self) -> (copy: Self)
        ensures
            copy.deep_view() == self.deep_view(),
    {
        let copy = TurnStep {
            events: self.events.clone(),
            error: self.error.clone(),
            over: self.over,
        };
        assert(copy.events.deep_view() =~= self.events.deep_view());
        copy
    }
}

/// A turn in progress.
#[derive(Debug, PartialEq, Default)]
pub struct Turn {
    pub accumulator: StreamAccumulator,
    pub config: LocalEndpointConfig,
}

#[verifier::ext_equal]
pub struct TurnView {
    pub accumulator: StreamAccumulatorView,
    pub config: LocalEndpointConfigView,
}

impl DeepView for Turn {
    type V = TurnView;

    open spec fn deep_view(&self) -> TurnView {
        TurnView {
            accumulator: self.accumulator.deep_view(),
            config: self.config.deep_view(),
        }
    }
}

impl Clone for Turn {
    fn clone(&self) -> (copy: Self)
        ensures
            copy.deep_view() == self.deep_view(),
    {
        Turn {
            accumulator: self.accumulator.clone(),
            config: self.config.clone(),
        }
    }
}

/// What an endpoint sends when a completion is over.
pub const END_MARKER: &'static str = "[DONE]";

/// Whether a message of the source says that the completion is over.
pub open spec fn says_done(data: Seq<char>) -> bool {
    text::trim(data) == END_MARKER@
}

pub open spec fn going_on(events: Seq<AgentEventView>) -> TurnStepView {
    TurnStepView { events, error: None, over: false }
}

pub open spec fn failed(error: LocalAgentErrorView) -> TurnStepView {
    TurnStepView { events: Seq::empty(), error: Some(error), over: true }
}

/// The end of a turn that the model finished: its pending tool calls, then the last event.
pub open spec fn finishing(accumulator: StreamAccumulatorView) -> TurnStepView {
    match openai::flushed(accumulator.pending_tool_calls) {
        Ok(calls) => TurnStepView {
            events: calls.push(AgentEventView::Done),
            error: None,
            over: true,
        },
        Err(error) => failed(error),
    }
}

/// The end of a turn whose source has nothing more: a normal end where the model reported that it
/// finished, and a failure where it was cut off.
pub open spec fn closing(accumulator: StreamAccumulatorView) -> TurnStepView {
    if accumulator.finish_reason_seen {
        finishing(accumulator)
    } else {
        failed(
            LocalAgentErrorView::Transport("stream ended before the model finished responding"@),
        )
    }
}

/// What one item of the source makes of a turn.
pub open spec fn step_for(turn: TurnView, item: SourceItemView) -> TurnStepView {
    match item {
        SourceItemView::Open => going_on(Seq::empty()),
        SourceItemView::Message { data, parsed } => if says_done(data) {
            finishing(turn.accumulator)
        } else {
            match parsed {
                ParsedChunkView::Malformed(message) => failed(
                    openai::malformed_chunk(message, data),
                ),
                ParsedChunkView::Chunk(chunk) => match openai::after_chunk(
                    turn.accumulator,
                    chunk,
                ).outcome {
                    Ok(events) => going_on(events),
                    Err(error) => failed(error),
                },
            }
        },
        SourceItemView::Failed(SourceFailureView::StreamEnded) => closing(turn.accumulator),
        SourceItemView::Failed(failure) => failed(
            openai::source_error(failure, turn.config.model_slug),
        ),
        SourceItemView::Closed => closing(turn.accumulator),
    }
}

/// An accumulator whose calls were put out.
pub open spec fn emptied(accumulator: StreamAccumulatorView) -> StreamAccumulatorView {
    StreamAccumulatorView {
        pending_tool_calls: Seq::empty(),
        finish_reason_seen: accumulator.finish_reason_seen,
    }
}

/// The accumulator after one item of the source.
pub open spec fn accumulator_after(turn: TurnView, item: SourceItemView) -> StreamAccumulatorView {
    match item {
        SourceItemView::Message { data, parsed } => if says_done(data) {
            emptied(turn.accumulator)
        } else {
            match parsed {
                ParsedChunkView::Chunk(chunk) => openai::after_chunk(
                    turn.accumulator,
                    chunk,
                ).accumulator,
                ParsedChunkView::Malformed(_) => turn.accumulator,
            }
        },
        SourceItemView::Failed(SourceFailureView::StreamEnded) | SourceItemView::Closed =>
            if turn.accumulator.finish_reason_seen {
                emptied(turn.accumulator)
            } else {
                turn.accumulator
            },
        _ => turn.accumulator,
    }
}

/// The turn after one item of the source.
pub open spec fn turn_after(turn: TurnView, item: SourceItemView) -> TurnView {
    TurnView { accumulator: accumulator_after(turn, item), config: turn.config }
}

fn go_on(events: Vec<AgentEvent>) -> (step: TurnStep)
    ensures
        step.deep_view() == going_on(events.deep_view()),
{
    TurnStep { events, error: None, over: false }
}

fn fail(error: LocalAgentError) -> (step: TurnStep)
    ensures
        step.deep_view() == failed(error.deep_view()),
{
    let events: Vec<AgentEvent> = Vec::new();
    assert(events.deep_view() =~= Seq::empty());
    TurnStep { events, error: Some(error), over: true }
}

/// Whether a message of the source says that the completion is over.
pub fn is_end_marker(data: &str) -> (result: bool)
    ensures
        result == says_done(data@),
{
    text::same_text(text::trimmed(data).as_str(), END_MARKER)
}

impl Turn {
    /// A turn against an endpoint, before anything came in.
    pub fn new(config: LocalEndpointConfig) -> (turn: Self)
        ensures
            turn.deep_view() == (TurnView {
                accumulator: StreamAccumulatorView {
                    pending_tool_calls: Seq::empty(),
                    finish_reason_seen: false,
                },
                config: config.deep_view(),
            }),
            openai::indexed(turn.deep_view().accumulator.pending_tool_calls),
    {
        Turn { accumulator: StreamAccumulator::new(), config }
    }

    fn finish(&mut self) -> (step: TurnStep)
        ensures
            step.deep_view() == finishing(old(self).deep_view().accumulator),
            final(self).deep_view() == (TurnView {
                accumulator: emptied(old(self).deep_view().accumulator),
                config: old(self).deep_view().config,
            }),
            keys::keyed_events(step.deep_view().events),
    {
        match self.accumulator.flush_tool_calls() {
            Ok(calls) => {
                let ghost before = calls.deep_view();
                let mut events = calls;
                events.push(AgentEvent::Done);
                assert(events.deep_view() =~= before.push(AgentEventView::Done));
                TurnStep { events, error: None, over: true }
            },
            Err(error) => fail(error),
        }
    }

    fn close(&mut self) -> (step: TurnStep)
        ensures
            step.deep_view() == closing(old(self).deep_view().accumulator),
            final(self).deep_view() == turn_after(old(self).deep_view(), SourceItemView::Closed),
            openai::indexed(old(self).deep_view().accumulator.pending_tool_calls)
                ==> openai::indexed(final(self).deep_view().accumulator.pending_tool_calls),
            keys::keyed_events(step.deep_view().events),
    {
        if self.accumulator.finished() {
            self.finish()
        } else {
            fail(
                LocalAgentError::Transport(
                    "stream ended before the model finished responding".to_string(),
                ),
            )
        }
    }

    /// Takes one item of the source and says what to put out for it, and whether the turn is over.
    /// Once it is over, the source is to be dropped.
    pub fn on_item(&mut self, item: SourceItem) -> (step: TurnStep)
        ensures
            step.deep_view() == step_for(old(self).deep_view(), item.deep_view()),
            final(self).deep_view() == turn_after(old(self).deep_view(), item.deep_view()),
            openai::indexed(old(self).deep_view().accumulator.pending_tool_calls)
                ==> openai::indexed(final(self).deep_view().accumulator.pending_tool_calls),
            keys::keyed_events(step.deep_view().events),
    {
        match item {
            SourceItem::Open => {
                let events: Vec<AgentEvent> = Vec::new();
                assert(events.deep_view() =~= Seq::empty());
                go_on(events)
            },
            SourceItem::Message { data, parsed } => {
                if is_end_marker(data.as_str()) {
                    return self.finish();
                }
                match parsed {
                    ParsedChunk::Malformed(message) => fail(
                        openai::chunk_error(message.as_str(), data.as_str()),
                    ),
                    ParsedChunk::Chunk(chunk) => match self.accumulator.ingest(chunk) {
                        Ok(events) => go_on(events),
                        Err(error) => fail(error),
                    },
                }
            },
            SourceItem::Failed(SourceFailure::StreamEnded) => self.close(),
            SourceItem::Failed(failure) => fail(
                openai::map_event_source_error(failure, &self.config),
            ),
            SourceItem::Closed => self.close(),
        }
    }
}

proof fn calls_are_no_end(pending: Seq<PartialToolCallView>, count: nat)
    requires
        count <= pending.len(),
        openai::completed_calls(pending, count) is Ok,
    ensures
        !openai::completed_calls(pending, count)->Ok_0.contains(AgentEventView::Done),
{
    fragments::calls_come_in_order(pending, count);
    let events = openai::completed_calls(pending, count)->Ok_0;
    if events.contains(AgentEventView::Done) {
        let i = events.index_of(AgentEventView::Done);
        assert(events[i] is ToolCall);
    }
}

proof fn choices_are_no_end(
    accumulator: StreamAccumulatorView,
    choices: Seq<ChunkChoiceView>,
    count: nat,
)
    requires
        count <= choices.len(),
        openai::after_choices(accumulator, choices, count).outcome is Ok,
    ensures
        forall|i: int|
            0 <= i < openai::after_choices(accumulator, choices, count).outcome->Ok_0.len() ==> (
            #[trigger] openai::after_choices(accumulator, choices, count).outcome->Ok_0[i])
                != AgentEventView::Done,
    decreases count,
{
    if count > 0 {
        let before = openai::after_choices(accumulator, choices, (count - 1) as nat);
        assert(before.outcome is Ok);
        choices_are_no_end(accumulator, choices, (count - 1) as nat);
        let choice = choices[count - 1];
        let pending = openai::with_fragments(
            before.accumulator.pending_tool_calls,
            choice.delta.tool_calls,
            choice.delta.tool_calls.len(),
        );
        let so_far = before.outcome->Ok_0 + openai::immediate(choice.delta);
        let events = openai::after_choices(accumulator, choices, count).outcome->Ok_0;
        if choice.finish_reason is Some {
            calls_are_no_end(pending, pending.len());
            let calls = openai::flushed(pending)->Ok_0;
            assert forall|i: int| 0 <= i < events.len() implies (#[trigger] events[i])
                != AgentEventView::Done by {
                if i >= so_far.len() {
                    assert(calls.contains(calls[i - so_far.len()]));
                }
            }
        }
    }
}

/// The last event of a successful turn is `Done`, and no other event is. A turn that is over
/// either failed, or put out `Done` as its last event; a turn that goes on did neither.
pub proof fn done_comes_last(turn: TurnView, item: SourceItemView)
    ensures
        ({
            let step = step_for(turn, item);
            &&& forall|i: int|
                0 <= i < step.events.len() - 1 ==> (#[trigger] step.events[i])
                    != AgentEventView::Done
            &&& step.over ==> (step.error is Some && step.events.len() == 0) || (step.error is None
                && step.events.len() > 0 && step.events.last() == AgentEventView::Done)
            &&& !step.over ==> step.error is None && forall|i: int|
                0 <= i < step.events.len() ==> (#[trigger] step.events[i]) != AgentEventView::Done
        }),
{
    let step = step_for(turn, item);
    let pending = turn.accumulator.pending_tool_calls;
    if openai::flushed(pending) is Ok {
        calls_are_no_end(pending, pending.len());
        let calls = openai::flushed(pending)->Ok_0;
        assert forall|i: int| 0 <= i < calls.len() implies (#[trigger] calls[i])
            != AgentEventView::Done by {
            assert(calls.contains(calls[i]));
        }
    }
    if let SourceItemView::Message { data, parsed: ParsedChunkView::Chunk(chunk) } = item {
        let chosen = openai::after_choices(turn.accumulator, chunk.choices, chunk.choices.len());
        if chosen.outcome is Ok {
            choices_are_no_end(turn.accumulator, chunk.choices, chunk.choices.len());
        }
    }
}

/// A run of a turn: where it stands, what it has put out, and whether it is over.
#[verifier::ext_equal]
pub struct Run {
    pub turn: TurnView,
    pub output: Seq<Result<AgentEventView, LocalAgentErrorView>>,
    pub over: bool,
}

/// What a step puts out: its events, then its error.
pub open spec fn put_out(step: TurnStepView) -> Seq<Result<AgentEventView, LocalAgentErrorView>> {
    let events = step.events.map_values(
        |event: AgentEventView| Ok::<AgentEventView, LocalAgentErrorView>(event),
    );
    match step.error {
        Some(error) => events.push(Err(error)),
        None => events,
    }
}

/// The run of a turn on the first `count` items of its source. Once it is over, nothing more is
/// taken.
pub open spec fn run_on(turn: TurnView, items: Seq<SourceItemView>, count: nat) -> Run
    decreases count,
{
    if count == 0 {
        Run { turn, output: Seq::empty(), over: false }
    } else {
        let before = run_on(turn, items, (count - 1) as nat);
        if before.over {
            before
        } else {
            let step = step_for(before.turn, items[count - 1]);
            Run {
                turn: turn_after(before.turn, items[count - 1]),
                output: before.output + put_out(step),
                over: step.over,
            }
        }
    }
}

/// Whether what was put out is the last of a stream: the end of the turn, or an error.
pub open spec fn is_last(output: Result<AgentEventView, LocalAgentErrorView>) -> bool {
    output is Err || output == Ok::<AgentEventView, LocalAgentErrorView>(AgentEventView::Done)
}

/// Whatever a source brings, a turn puts out its end or an error once, as the very last thing, and
/// exactly when it is over.
pub proof fn run_ends_once(turn: TurnView, items: Seq<SourceItemView>, count: nat)
    ensures
        ({
            let run = run_on(turn, items, count);
            &&& run.over ==> run.output.len() > 0 && is_last(run.output.last())
            &&& forall|i: int|
                0 <= i < run.output.len() && is_last(#[trigger] run.output[i]) ==> run.over && i
                    == run.output.len() - 1
        }),
    decreases count,
{
    if count > 0 {
        run_ends_once(turn, items, (count - 1) as nat);
        let before = run_on(turn, items, (count - 1) as nat);
        let run = run_on(turn, items, count);
        if !before.over {
            let step = step_for(before.turn, items[count - 1]);
            let more = put_out(step);
            done_comes_last(before.turn, items[count - 1]);
            assert forall|i: int|
                0 <= i < run.output.len() && is_last(#[trigger] run.output[i]) implies run.over && i
                == run.output.len() - 1 by {
                if i < before.output.len() {
                    assert(run.output[i] == before.output[i]);
                } else {
                    let k = i - before.output.len();
                    assert(run.output[i] == more[k]);
                    if k < step.events.len() {
                        assert(more[k] == Ok::<AgentEventView, LocalAgentErrorView>(
                            step.events[k],
                        ));
                    }
                }
            }
            if run.over {
                assert(run.output.last() == more.last());
            }
        }
    }
}

/// A turn whose source breaks off before the model reported that it finished never succeeds.
pub proof fn interrupted_turn_fails(turn: TurnView, item: SourceItemView)
    requires
        !turn.accumulator.finish_reason_seen,
        item == SourceItemView::Closed || item is Failed,
    ensures
        step_for(turn, item).over,
        step_for(turn, item).error is Some,
{
}

/// A turn whose source closes without a word after the model reported that it finished succeeds,
/// as long as its tool calls can be read.
pub proof fn silent_end_is_accepted(turn: TurnView, item: SourceItemView)
    requires
        turn.accumulator.finish_reason_seen,
        item == SourceItemView::Closed || item == SourceItemView::Failed(
            SourceFailureView::StreamEnded,
        ),
        openai::flushed(turn.accumulator.pending_tool_calls) is Ok,
    ensures
        step_for(turn, item).error is None,
        step_for(turn, item).events.last() == AgentEventView::Done,
{
}

/// How far the reading of a reply has come.
pub open spec fn reply_step(
    reply: Seq<char>,
    event: Result<AgentEventView, LocalAgentErrorView>,
) -> (Seq<char>, Result<bool, LocalAgentErrorView>) {
    match event {
        Ok(AgentEventView::TextDelta(delta)) => (reply + delta, Ok(false)),
        Ok(AgentEventView::Done) => (reply, Ok(true)),
        Ok(_) => (reply, Ok(false)),
        Err(error) => (reply, Err(error)),
    }
}

/// Takes one event into the text of a reply, and says whether the reply is complete. Reasoning,
/// usage and tool calls are no part of it.
pub fn collect_reply(
    reply: &mut String,
    event: Result<AgentEvent, LocalAgentError>,
) -> (complete: Result<bool, LocalAgentError>)
    ensures
        ({
            let handed = match event {
                Ok(event) => Ok::<AgentEventView, LocalAgentErrorView>(event.deep_view()),
                Err(error) => Err::<AgentEventView, LocalAgentErrorView>(error.deep_view()),
            };
            reply_step(old(reply)@, handed) == (
                final(reply)@,
                match complete {
                    Ok(complete) => Ok::<bool, LocalAgentErrorView>(complete),
                    Err(error) => Err::<bool, LocalAgentErrorView>(error.deep_view()),
                },
            )
        }),
{
    match event {
        Ok(AgentEvent::TextDelta(delta)) => {
            reply.append(delta.as_str());
            Ok(false)
        },
        Ok(AgentEvent::Done) => Ok(true),
        Ok(_) => Ok(false),
        Err(error) => Err(error),
    }
}

/// The text of a reply after the first `count` of a run of events.
pub open spec fn reply_after(events: Seq<AgentEventView>, count: nat) -> Seq<char>
    decreases count,
{
    if count == 0 {
        Seq::empty()
    } else {
        reply_step(reply_after(events, (count - 1) as nat), Ok(events[count - 1])).0
    }
}

/// The text deltas among the first `count` of a run of events.
pub open spec fn deltas_in(events: Seq<AgentEventView>, count: nat) -> Seq<Seq<char>>
    decreases count,
{
    if count == 0 {
        Seq::empty()
    } else {
        let before = deltas_in(events, (count - 1) as nat);
        match events[count - 1] {
            AgentEventView::TextDelta(delta) => before.push(delta),
            _ => before,
        }
    }
}

/// A reply is the text that was streamed, piece after piece, with nothing between.
pub proof fn reply_is_all_text(events: Seq<AgentEventView>, count: nat)
    ensures
        reply_after(events, count) == text::join(deltas_in(events, count), Seq::empty()),
    decreases count,
{
    if count > 0 {
        reply_is_all_text(events, (count - 1) as nat);
        let before = deltas_in(events, (count - 1) as nat);
        if let AgentEventView::TextDelta(delta) = events[count - 1] {
            let after = before.push(delta);
            join_prefix(before, delta, before.len());
            if before.len() == 0 {
                assert(reply_after(events, (count - 1) as nat) + delta =~= delta);
            } else {
                assert(text::join(before, Seq::empty()) + Seq::<char>::empty() + delta
                    =~= text::join(before, Seq::empty()) + delta);
            }
        }
    }
}

proof fn join_prefix(parts: Seq<Seq<char>>, part: Seq<char>, count: nat)
    requires
        count <= parts.len(),
    ensures
        text::join_first(parts.push(part), Seq::empty(), count) == text::join_first(
            parts,
            Seq::empty(),
            count,
        ),
    decreases count,
{
    if count > 1 {
        join_prefix(parts, part, (count - 1) as nat);
    }
}

} // verus!
