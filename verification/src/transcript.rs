//! Laws of transcripts: what every transcript keeps to, and what the next turn
//! sees of this one.

use vstd::prelude::*;

use crate::api::context::InputContextView;
use crate::api::message::{
    MessageContentView, MessageView, PassiveSuggestionResultTypeView, PassiveSuggestionView, TaskView,
};
use crate::api::request::{InputKindView, RequestView, UserInputKindView, UserInputView};
use crate::api::tool::ToolCallView;
use crate::definitions;
use crate::model::{AdapterErrorView, ChatMessageView, ToolCallRequestView};
use crate::plan;
use crate::plan::{History, TurnPlanView};
use crate::prompt;
use crate::prompt::EnvironmentInfoView;
use crate::registry;
use crate::registry::ToolRegistryView;
use crate::render;
use crate::route;
use crate::route::LocalRouteView;

verus! {

/// Whether the message at `at` makes a tool call under an id.
pub open spec fn calls_at(transcript: Seq<ChatMessageView>, at: int, id: Seq<char>) -> bool {
    transcript[at] matches ChatMessageView::Assistant { tool_calls, .. } && exists|c: int|
        0 <= c < tool_calls.len() && (#[trigger] tool_calls[c]).id == id
}

/// Whether a message before position `at` makes a tool call under an id.
pub open spec fn called_before(transcript: Seq<ChatMessageView>, at: int, id: Seq<char>) -> bool {
    exists|i: int| 0 <= i < at && #[trigger] calls_at(transcript, i, id)
}

/// Whether every tool message answers a call that was made before it.
pub open spec fn answers_calls(transcript: Seq<ChatMessageView>) -> bool {
    forall|j: int|
        0 <= j < transcript.len() && (#[trigger] transcript[j]) is Tool ==> called_before(
            transcript,
            j,
            transcript[j]->tool_call_id,
        )
}

/// Whether a transcript begins with a system prompt and has no other.
pub open spec fn one_prompt(transcript: Seq<ChatMessageView>) -> bool {
    transcript.len() > 0 && transcript[0] is System && forall|j: int|
        0 < j < transcript.len() ==> !((#[trigger] transcript[j]) is System)
}

/// What every transcript in the making keeps to.
pub open spec fn sound(history: History) -> bool {
    &&& answers_calls(history.transcript)
    &&& one_prompt(history.transcript)
    &&& forall|id: Seq<char>| #[trigger]
        history.known.contains(id) ==> called_before(
            history.transcript,
            history.transcript.len() as int,
            id,
        )
}

proof fn push_keeps_calls(
    transcript: Seq<ChatMessageView>,
    message: ChatMessageView,
    at: int,
    id: Seq<char>,
)
    requires
        at <= transcript.len(),
        called_before(transcript, at, id),
    ensures
        called_before(transcript.push(message), at, id),
        called_before(transcript.push(message), (transcript.len() + 1) as int, id),
{
    let i = choose|i: int| 0 <= i < at && calls_at(transcript, i, id);
    assert(calls_at(transcript.push(message), i, id));
}

proof fn said_is_sound(history: History, message: ChatMessageView)
    requires
        sound(history),
        !(message is System),
        message is Tool ==> history.known.contains(message->tool_call_id),
    ensures
        sound(plan::said(history, message)),
{
    let before = history.transcript;
    let after = plan::said(history, message).transcript;
    assert forall|j: int| 0 <= j < after.len() && (#[trigger] after[j]) is Tool implies called_before(
        after,
        j,
        after[j]->tool_call_id,
    ) by {
        if j < before.len() {
            assert(after[j] == before[j]);
            push_keeps_calls(before, message, j, before[j]->tool_call_id);
        } else {
            push_keeps_calls(before, message, j, message->tool_call_id);
        }
    }
    assert forall|id: Seq<char>| #[trigger] history.known.contains(id) implies called_before(
        after,
        after.len() as int,
        id,
    ) by {
        push_keeps_calls(before, message, before.len() as int, id);
    }
}

proof fn called_is_sound(history: History, request: ToolCallRequestView)
    requires
        sound(history),
    ensures
        sound(plan::called(history, request)),
{
    let before = history.transcript;
    let after = plan::with_call(before, request);
    let last = after.len() - 1;
    assert(after[last] is Assistant);
    let calls = after[last]->tool_calls;
    assert(calls[calls.len() - 1] == request);
    assert(calls_at(after, last, request.id));
    assert forall|i: int, id: Seq<char>| 0 <= i < before.len() && #[trigger]
        calls_at(before, i, id) implies calls_at(after, i, id) by {
        if i == last {
            let old_calls = before[i]->tool_calls;
            let c = choose|c: int| 0 <= c < old_calls.len() && (#[trigger] old_calls[c]).id == id;
            assert(calls[c].id == id);
        } else {
            assert(after[i] == before[i]);
        }
    }
    assert forall|j: int| 0 <= j < after.len() && (#[trigger] after[j]) is Tool implies called_before(
        after,
        j,
        after[j]->tool_call_id,
    ) by {
        assert(j < before.len() && after[j] == before[j]);
        let i = choose|i: int| 0 <= i < j && calls_at(before, i, before[j]->tool_call_id);
        assert(calls_at(after, i, after[j]->tool_call_id));
    }
    assert forall|j: int| 0 < j < after.len() implies !((#[trigger] after[j]) is System) by {
        if j < last {
            assert(after[j] == before[j]);
        }
    }
    let known = history.known.push(request.id);
    assert forall|id: Seq<char>| #[trigger] known.contains(id) implies called_before(
        after,
        after.len() as int,
        id,
    ) by {
        if id != request.id {
            let k = known.index_of(id);
            assert(history.known[k] == id);
            assert(history.known.contains(id));
            let i = choose|i: int| 0 <= i < before.len() && calls_at(before, i, id);
            assert(calls_at(after, i, id));
        }
    }
}

proof fn message_is_sound(history: History, tools: ToolRegistryView, message: MessageView)
    requires
        sound(history),
    ensures
        sound(plan::after_message(history, tools, message)),
{
    match message.message {
        Some(MessageContentView::UserQuery(query)) => {
            said_is_sound(history, ChatMessageView::User(query.query));
        },
        Some(MessageContentView::AgentOutput(output)) => {
            said_is_sound(
                history,
                ChatMessageView::Assistant { text: output.text, tool_calls: Seq::empty() },
            );
        },
        Some(MessageContentView::ToolCall(call)) => {
            if let Some(request) = registry::replayed_call(tools, call) {
                called_is_sound(history, request);
            }
        },
        Some(MessageContentView::ToolCallResult(result)) => {
            if history.known.contains(result.tool_call_id) {
                said_is_sound(
                    history,
                    ChatMessageView::Tool {
                        tool_call_id: result.tool_call_id,
                        content: render::result_text(result),
                    },
                );
            }
        },
        _ => {},
    }
}

proof fn messages_are_sound(
    history: History,
    tools: ToolRegistryView,
    messages: Seq<MessageView>,
    count: nat,
)
    requires
        sound(history),
    ensures
        sound(plan::after_messages(history, tools, messages, count)),
    decreases count,
{
    if count > 0 {
        messages_are_sound(history, tools, messages, (count - 1) as nat);
        message_is_sound(
            plan::after_messages(history, tools, messages, (count - 1) as nat),
            tools,
            messages[count - 1],
        );
    }
}

proof fn tasks_are_sound(
    history: History,
    tools: ToolRegistryView,
    tasks: Seq<TaskView>,
    count: nat,
)
    requires
        sound(history),
    ensures
        sound(plan::after_tasks(history, tools, tasks, count)),
    decreases count,
{
    if count > 0 {
        tasks_are_sound(history, tools, tasks, (count - 1) as nat);
        messages_are_sound(
            plan::after_tasks(history, tools, tasks, (count - 1) as nat),
            tools,
            tasks[count - 1].messages,
            tasks[count - 1].messages.len(),
        );
    }
}

proof fn suggestion_is_sound(history: History, result: PassiveSuggestionResultTypeView)
    requires
        sound(history),
    ensures
        sound(plan::after_suggestion(history, result)),
{
    let noted = match result.trigger {
        Some(trigger) => plan::said(history, ChatMessageView::User(plan::trigger_note(trigger))),
        None => history,
    };
    if let Some(trigger) = result.trigger {
        said_is_sound(history, ChatMessageView::User(plan::trigger_note(trigger)));
    }
    if let Some(PassiveSuggestionView::Prompt(prompt)) = result.suggestion {
        said_is_sound(noted, ChatMessageView::User(prompt.prompt));
    }
}

proof fn input_is_sound(history: History, input: UserInputView)
    requires
        sound(history),
    ensures
        sound(plan::after_input(history, input)),
{
    match input.input {
        Some(UserInputKindView::UserQuery(query)) => {
            said_is_sound(history, ChatMessageView::User(query.query));
        },
        Some(UserInputKindView::ToolCallResult(result)) => {
            let id = result.tool_call_id;
            let answer = ChatMessageView::Tool {
                tool_call_id: id,
                content: render::result_text(plan::logged_call_result(result)),
            };
            if history.known.contains(id) {
                said_is_sound(history, answer);
            } else {
                let call = ChatMessageView::Assistant {
                    text: Seq::empty(),
                    tool_calls: seq![plan::stand_in_call(id)],
                };
                let defined = History {
                    transcript: history.transcript.push(call),
                    known: history.known.push(id),
                };
                said_is_sound(history, call);
                let last = history.transcript.len() as int;
                assert(defined.transcript[last]->tool_calls[0].id == id);
                assert(calls_at(defined.transcript, last, id));
                assert forall|other: Seq<char>| #[trigger]
                    defined.known.contains(other) implies called_before(
                    defined.transcript,
                    defined.transcript.len() as int,
                    other,
                ) by {
                    if other != id {
                        let k = defined.known.index_of(other);
                        assert(history.known[k] == other);
                        assert(plan::said(history, call).known.contains(other));
                    }
                }
                assert(defined.known[history.known.len() as int] == id);
                assert(defined.known.contains(id));
                said_is_sound(defined, answer);
            }
        },
        Some(UserInputKindView::PassiveSuggestionResult(accepted)) => {
            if let Some(result) = accepted.result {
                suggestion_is_sound(history, result);
            }
        },
        _ => {},
    }
}

proof fn inputs_are_sound(history: History, inputs: Seq<UserInputView>, count: nat)
    requires
        sound(history),
    ensures
        sound(plan::after_inputs(history, inputs, count)),
    decreases count,
{
    if count > 0 {
        inputs_are_sound(history, inputs, (count - 1) as nat);
        input_is_sound(
            plan::after_inputs(history, inputs, (count - 1) as nat),
            inputs[count - 1],
        );
    }
}

proof fn messages_keep_prompt(
    history: History,
    tools: ToolRegistryView,
    messages: Seq<MessageView>,
    count: nat,
)
    requires
        one_prompt(history.transcript),
        sound(history),
    ensures
        plan::after_messages(history, tools, messages, count).transcript[0]
            == history.transcript[0],
    decreases count,
{
    if count > 0 {
        messages_keep_prompt(history, tools, messages, (count - 1) as nat);
        messages_are_sound(history, tools, messages, (count - 1) as nat);
    }
}

proof fn tasks_keep_prompt(
    history: History,
    tools: ToolRegistryView,
    tasks: Seq<TaskView>,
    count: nat,
)
    requires
        sound(history),
    ensures
        plan::after_tasks(history, tools, tasks, count).transcript[0] == history.transcript[0],
    decreases count,
{
    if count > 0 {
        tasks_keep_prompt(history, tools, tasks, (count - 1) as nat);
        tasks_are_sound(history, tools, tasks, (count - 1) as nat);
        messages_keep_prompt(
            plan::after_tasks(history, tools, tasks, (count - 1) as nat),
            tools,
            tasks[count - 1].messages,
            tasks[count - 1].messages.len(),
        );
    }
}

proof fn prompt_is_not_empty(instructions: Seq<char>, env: EnvironmentInfoView)
    ensures
        prompt::prompt_text(instructions, env).len() > 0,
{
    reveal_strlit("\n\n## Environment\n");
}

/// The transcript of an agent turn begins with its one system prompt, which is not empty, and never
/// answers a tool call that it does not make first, whatever the log and the inputs of the request
/// hold.
pub proof fn agent_transcript_is_sound(
    request: RequestView,
    context: Option<InputContextView>,
    inputs: Seq<UserInputView>,
)
    ensures
        ({
            let transcript = plan::agent_transcript(request, context, inputs);
            let prompt = prompt::prompt_text(
                prompt::STATIC_INSTRUCTIONS@,
                plan::environment_of(context),
            );
            one_prompt(transcript) && transcript[0] == ChatMessageView::System(prompt)
                && prompt.len() > 0 && answers_calls(transcript)
        }),
{
    let env = plan::environment_of(context);
    let start = plan::opened(prompt::prompt_text(prompt::STATIC_INSTRUCTIONS@, env));
    let tasks = plan::tasks_of(request);
    prompt_is_not_empty(prompt::STATIC_INSTRUCTIONS@, env);
    tasks_are_sound(start, plan::agent_tools(request), tasks, tasks.len());
    tasks_keep_prompt(start, plan::agent_tools(request), tasks, tasks.len());
    let history = plan::agent_history(request, context);
    inputs_are_sound(history, inputs, inputs.len());
    inputs_extend_history(history, inputs, inputs.len());
}

/// The transcript of a passive suggestion turn begins with its one system prompt, which is not
/// empty, never answers a tool call that it does not make first, and ends with the instruction.
pub proof fn suggestion_transcript_is_sound(
    request: RequestView,
    context: Option<InputContextView>,
    instruction: Seq<char>,
)
    ensures
        ({
            let transcript = plan::suggestion_history(request, context).transcript.push(
                ChatMessageView::User(instruction),
            );
            let prompt = prompt::prompt_text(
                prompt::SUGGESTION_INSTRUCTIONS@,
                plan::environment_of(context),
            );
            one_prompt(transcript) && transcript[0] == ChatMessageView::System(prompt)
                && prompt.len() > 0 && answers_calls(transcript) && transcript.last()
                == ChatMessageView::User(instruction)
        }),
{
    let env = plan::environment_of(context);
    let start = plan::opened(prompt::prompt_text(prompt::SUGGESTION_INSTRUCTIONS@, env));
    let tasks = plan::tasks_of(request);
    prompt_is_not_empty(prompt::SUGGESTION_INSTRUCTIONS@, env);
    tasks_are_sound(start, registry::suggestion_registry(), tasks, tasks.len());
    tasks_keep_prompt(start, registry::suggestion_registry(), tasks, tasks.len());
    said_is_sound(plan::suggestion_history(request, context), ChatMessageView::User(instruction));
}

/// The inputs of a turn only add to what the turn knew before: the replayed conversation stays as
/// it is.
pub proof fn inputs_extend_history(history: History, inputs: Seq<UserInputView>, count: nat)
    ensures
        history.transcript.is_prefix_of(
            plan::after_inputs(history, inputs, count).transcript,
        ),
    decreases count,
{
    if count > 0 {
        inputs_extend_history(history, inputs, (count - 1) as nat);
    }
}

/// Whether a turn can be told from its log alone: it holds no note on a suggestion's trigger,
/// which is context for one turn, and no result of a call that the conversation lacks.
pub open spec fn durable(history: History, input: UserInputView) -> bool {
    match input.input {
        Some(UserInputKindView::UserQuery(_)) => true,
        Some(UserInputKindView::ToolCallResult(result)) => history.known.contains(
            result.tool_call_id,
        ),
        Some(UserInputKindView::PassiveSuggestionResult(accepted)) => accepted.result matches Some(
            result,
        ) ==> result.trigger is None,
        _ => true,
    }
}

/// The next turn sees what the inputs of this one said: replaying the messages that a turn echoes
/// into its task gives the very transcript that the turn itself had.
pub proof fn echoes_replay_inputs(
    history: History,
    tools: ToolRegistryView,
    inputs: Seq<UserInputView>,
    context: Option<InputContextView>,
    messages: Seq<MessageView>,
    task_id: Seq<char>,
    count: nat,
)
    requires
        count <= inputs.len(),
        plan::fresh_messages(messages, task_id, plan::echoes_of(inputs, context, inputs.len())),
        forall|i: int|
            0 <= i < inputs.len() ==> durable(
                plan::after_inputs(history, inputs, i as nat),
                #[trigger] inputs[i],
            ),
    ensures
        plan::echoes_of(inputs, context, count).len() <= messages.len(),
        plan::after_messages(
            history,
            tools,
            messages,
            plan::echoes_of(inputs, context, count).len(),
        ) == plan::after_inputs(history, inputs, count),
    decreases count,
{
    echoes_grow(inputs, context, count, inputs.len());
    if count > 0 {
        echoes_replay_inputs(
            history,
            tools,
            inputs,
            context,
            messages,
            task_id,
            (count - 1) as nat,
        );
        let input = inputs[count - 1];
        let before = plan::echoes_of(inputs, context, (count - 1) as nat);
        assert(durable(plan::after_inputs(history, inputs, (count - 1) as nat), input));
        if let Some(content) = plan::echo_of(input, context) {
            let at = before.len() as int;
            assert(plan::echoes_of(inputs, context, count)[at] == content);
            assert(plan::echoes_of(inputs, context, inputs.len())[at] == content);
            assert(plan::fresh_message(messages[at], task_id, content));
        }
    }
}

proof fn echoes_grow(
    inputs: Seq<UserInputView>,
    context: Option<InputContextView>,
    from: nat,
    to: nat,
)
    requires
        from <= to,
    ensures
        plan::echoes_of(inputs, context, from).is_prefix_of(plan::echoes_of(inputs, context, to)),
    decreases to,
{
    if from < to {
        echoes_grow(inputs, context, from, (to - 1) as nat);
    }
}

/// A passive suggestion turn offers the `suggest_prompt` tool and no other.
pub proof fn suggestion_turn_has_one_tool()
    ensures
        registry::announced(registry::suggestion_registry()) == seq![
            definitions::suggest_prompt_announced(),
        ],
        definitions::suggest_prompt_announced().name == definitions::SUGGEST_PROMPT@,
{
}

/// The messages of a log that hold the given tool calls.
pub open spec fn hold_calls(messages: Seq<MessageView>, calls: Seq<ToolCallView>) -> bool {
    messages.len() == calls.len() && forall|i: int|
        0 <= i < calls.len() ==> (#[trigger] messages[i]).message == Some(
            MessageContentView::ToolCall(calls[i]),
        )
}

/// The text and the tool calls of one reply stay in one message of the transcript, however many
/// calls there are, and each call is answerable from then on.
pub proof fn reply_stays_together(
    history: History,
    tools: ToolRegistryView,
    output: Seq<char>,
    messages: Seq<MessageView>,
    calls: Seq<ToolCallView>,
    requests: Seq<ToolCallRequestView>,
    count: nat,
)
    requires
        hold_calls(messages, calls),
        requests.len() == calls.len(),
        count <= calls.len(),
        forall|i: int|
            0 <= i < calls.len() ==> registry::replayed_call(tools, #[trigger] calls[i]) == Some(
                requests[i],
            ),
    ensures
        ({
            let spoken = plan::said(
                history,
                ChatMessageView::Assistant { text: output, tool_calls: Seq::empty() },
            );
            plan::after_messages(spoken, tools, messages, count) == (History {
                transcript: history.transcript.push(
                    ChatMessageView::Assistant {
                        text: output,
                        tool_calls: requests.take(count as int),
                    },
                ),
                known: history.known + requests.take(count as int).map_values(
                    |request: ToolCallRequestView| request.id,
                ),
            })
        }),
    decreases count,
{
    let spoken = plan::said(
        history,
        ChatMessageView::Assistant { text: output, tool_calls: Seq::empty() },
    );
    if count == 0 {
        assert(requests.take(0) =~= Seq::empty());
        assert(history.known + requests.take(0).map_values(
            |request: ToolCallRequestView| request.id,
        ) =~= history.known);
    } else {
        let less = (count - 1) as nat;
        reply_stays_together(history, tools, output, messages, calls, requests, less);
        let before = plan::after_messages(spoken, tools, messages, less);
        let request = requests[count - 1];
        assert(messages[count - 1].message == Some(MessageContentView::ToolCall(calls[count - 1])));
        assert(registry::replayed_call(tools, calls[count - 1]) == Some(request));
        assert(requests.take(count as int) =~= requests.take(less as int).push(request));
        let after = plan::called(before, request);
        assert(after.transcript =~= history.transcript.push(
            ChatMessageView::Assistant { text: output, tool_calls: requests.take(count as int) },
        ));
        assert(after.known =~= history.known + requests.take(count as int).map_values(
            |request: ToolCallRequestView| request.id,
        ));
    }
}

/// The result of a call that the log holds is taken as the answer to that call, and needs no call
/// to stand in for it.
pub proof fn result_answers_its_call(
    history: History,
    tools: ToolRegistryView,
    message: MessageView,
    call: ToolCallView,
    result: UserInputView,
)
    requires
        message.message == Some(MessageContentView::ToolCall(call)),
        registry::replayed_call(tools, call) is Some,
        result.input matches Some(UserInputKindView::ToolCallResult(answer)) && answer.tool_call_id
            == call.tool_call_id,
    ensures
        durable(plan::after_message(history, tools, message), result),
        plan::after_input(plan::after_message(history, tools, message), result).transcript.len()
            == plan::after_message(history, tools, message).transcript.len() + 1,
{
    let request = registry::replayed_call(tools, call)->0;
    let after = plan::called(history, request);
    assert(after.known[history.known.len() as int] == call.tool_call_id);
    assert(after.known.contains(call.tool_call_id));
}

/// A request that is served locally gets a plan, unless it asks for a passive suggestion without
/// a trigger that is still in use.
pub proof fn routed_request_is_planned(
    request: RequestView,
    route: LocalRouteView,
    planned: Result<TurnPlanView, AdapterErrorView>,
)
    requires
        route::local_route(request) == Some(route),
        plan::plans_turn(request, route, planned),
    ensures
        planned is Ok <==> !(request.input->0.kind matches Some(
            InputKindView::GeneratePassiveSuggestions(generate),
        ) && (generate.trigger is None || plan::instruction_for(generate.trigger->0) is None)),
{
    let kind = request.input->0.kind->0;
    if let InputKindView::UserInputs(turn) = kind {
        assert(plan::all_understood(turn.inputs));
    }
}

} // verus!
