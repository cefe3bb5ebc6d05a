//! Laws of turns: what the model is told, said by said, of the log and of the inputs of a request,
//! and what the log keeps of them.

use vstd::prelude::*;

use crate::api::context;
use crate::api::context::{
    AnyFileContentKindView, AnyFileContentView, ExecutedShellCommandView, FileContentView,
    InputContextView, ProjectRulesView,
};
use crate::api::message::{
    LoggedTriggerView, MessageContentView, MessageView, PassiveSuggestionResultTypeView,
    PassiveSuggestionTriggerView, PassiveSuggestionView, SystemQueryKindView, TaskView,
    UserQueryView,
};
use crate::api::request::{
    CompletedShellCommandView, GeneratePassiveSuggestionsView, InputKindView, RequestView,
    TriggerView, UserInputKindView, UserInputView,
};
use crate::api::result::{
    InputToolCallResultView, InputToolResultView, ToolCallResultView, ToolResultView,
};
use crate::ids;
use crate::json::JsonView;
use crate::mapped;
use crate::model::{AdapterErrorView, ChatMessageView, ToolCallRequestView};
use crate::plan;
use crate::plan::{History, TurnPlanView};
use crate::prompt;
use crate::prompt::EnvironmentInfoView;
use crate::registry;
use crate::registry::ToolRegistryView;
use crate::render;
use crate::route;
use crate::route::LocalRouteView;
use crate::text;

verus! {

/// One thing that is said in a conversation.
#[verifier::ext_equal]
pub enum Said {
    Prompt(Seq<char>),
    Query(Seq<char>),
    Reply(Seq<char>),
    Call(ToolCallRequestView),
    /// The id of the call that is answered, and the answer.
    Answer(Seq<char>, Seq<char>),
}

/// What a message of a transcript says: an assistant's text, where there is any, and then its
/// calls, one by one.
pub open spec fn says(message: ChatMessageView) -> Seq<Said> {
    match message {
        ChatMessageView::System(content) => seq![Said::Prompt(content)],
        ChatMessageView::User(content) => seq![Said::Query(content)],
        ChatMessageView::Assistant { text: content, tool_calls } => (if content.len() == 0 {
            Seq::empty()
        } else {
            seq![Said::Reply(content)]
        }) + Seq::new(tool_calls.len(), |c: int| Said::Call(tool_calls[c])),
        ChatMessageView::Tool { tool_call_id, content } => seq![Said::Answer(tool_call_id, content)],
    }
}

/// What a transcript says, in order.
pub open spec fn spoken(transcript: Seq<ChatMessageView>) -> Seq<Said>
    decreases transcript.len(),
{
    if transcript.len() == 0 {
        Seq::empty()
    } else {
        says(transcript[0]) + spoken(transcript.drop_first())
    }
}

/// The ids of the calls among what is said, in order.
pub open spec fn called_ids(said: Seq<Said>) -> Seq<Seq<char>>
    decreases said.len(),
{
    if said.len() == 0 {
        Seq::empty()
    } else {
        (match said[0] {
            Said::Call(request) => seq![request.id],
            _ => Seq::empty(),
        }) + called_ids(said.drop_first())
    }
}

/// What a message of the log says, given the ids of the calls that were made before it: a query, an
/// output that is not empty, a call that the local loop can express, or the result of a call that
/// was made.
pub open spec fn log_says(
    ids: Seq<Seq<char>>,
    tools: ToolRegistryView,
    message: MessageView,
) -> Seq<Said> {
    match message.message {
        Some(MessageContentView::UserQuery(query)) => seq![Said::Query(query.query)],
        Some(MessageContentView::AgentOutput(output)) => if output.text.len() > 0 {
            seq![Said::Reply(output.text)]
        } else {
            Seq::empty()
        },
        Some(MessageContentView::ToolCall(call)) => match registry::replayed_call(tools, call) {
            Some(request) => seq![Said::Call(request)],
            None => Seq::empty(),
        },
        Some(MessageContentView::ToolCallResult(result)) => if ids.contains(result.tool_call_id) {
            seq![Said::Answer(result.tool_call_id, render::result_text(result))]
        } else {
            Seq::empty()
        },
        _ => Seq::empty(),
    }
}

/// What a log says, message by message.
pub open spec fn all_log_says(
    ids: Seq<Seq<char>>,
    tools: ToolRegistryView,
    messages: Seq<MessageView>,
) -> Seq<Said>
    decreases messages.len(),
{
    if messages.len() == 0 {
        Seq::empty()
    } else {
        let first = log_says(ids, tools, messages[0]);
        first + all_log_says(ids + called_ids(first), tools, messages.drop_first())
    }
}

/// The messages of all tasks, task by task.
pub open spec fn whole_log(tasks: Seq<TaskView>) -> Seq<MessageView>
    decreases tasks.len(),
{
    if tasks.len() == 0 {
        Seq::empty()
    } else {
        tasks[0].messages + whole_log(tasks.drop_first())
    }
}

/// The log's form of a tool result that comes in with a request: the same result, where it is of a
/// tool that the local loop calls.
pub open spec fn carried_over(result: Option<InputToolResultView>) -> Option<ToolResultView> {
    match result {
        None => None,
        Some(InputToolResultView::Other(_)) => None,
        Some(InputToolResultView::RunShellCommand(payload)) => Some(
            ToolResultView::RunShellCommand(payload),
        ),
        Some(InputToolResultView::ReadFiles(payload)) => Some(ToolResultView::ReadFiles(payload)),
        Some(InputToolResultView::ApplyFileDiffs(payload)) => Some(
            ToolResultView::ApplyFileDiffs(payload),
        ),
        Some(InputToolResultView::Grep(payload)) => Some(ToolResultView::Grep(payload)),
        Some(InputToolResultView::FileGlob(payload)) => Some(ToolResultView::FileGlob(payload)),
        Some(InputToolResultView::FileGlobV2(payload)) => Some(ToolResultView::FileGlobV2(payload)),
        Some(InputToolResultView::ReadMcpResource(payload)) => Some(
            ToolResultView::ReadMcpResource(payload),
        ),
        Some(InputToolResultView::CallMcpTool(payload)) => Some(
            ToolResultView::CallMcpTool(payload),
        ),
    }
}

/// A tool result that comes in with a request is kept in the log under the id of its call, as a
/// result of the same kind and with the same payload, for each of the tools that the local loop
/// calls.
pub proof fn results_are_carried_over(input: InputToolCallResultView)
    ensures
        plan::logged_call_result(input).tool_call_id == input.tool_call_id,
        plan::logged_call_result(input).result == carried_over(input.result),
        plan::logged_call_result(input).result is None <==> input.result is None
            || input.result->0 is Other,
{
}

/// What the model reads of a tool result that comes in with a request.
pub open spec fn answer_of(input: InputToolCallResultView) -> Seq<char> {
    render::result_text(
        ToolCallResultView {
            tool_call_id: input.tool_call_id,
            context: None,
            result: carried_over(input.result),
        },
    )
}

/// What an input of a turn says, given the ids of the calls that were made before it: a query; the
/// result of a call, and before it a call to answer where none was made; or what led to an accepted
/// suggestion, and the suggested prompt.
pub open spec fn input_says(ids: Seq<Seq<char>>, input: UserInputView) -> Seq<Said> {
    match input.input {
        Some(UserInputKindView::UserQuery(query)) => seq![Said::Query(query.query)],
        Some(UserInputKindView::ToolCallResult(result)) => (if ids.contains(result.tool_call_id) {
            Seq::empty()
        } else {
            seq![
                Said::Call(
                    ToolCallRequestView {
                        id: result.tool_call_id,
                        name: "tool"@,
                        arguments: JsonView::Object(Seq::empty()),
                    },
                ),
            ]
        }) + seq![Said::Answer(result.tool_call_id, answer_of(result))],
        Some(UserInputKindView::PassiveSuggestionResult(accepted)) => match accepted.result {
            Some(result) => (match result.trigger {
                Some(trigger) => seq![Said::Query(plan::trigger_note(trigger))],
                None => Seq::empty(),
            }) + (match result.suggestion {
                Some(PassiveSuggestionView::Prompt(prompt)) => seq![Said::Query(prompt.prompt)],
                _ => Seq::empty(),
            }),
            None => Seq::empty(),
        },
        _ => Seq::empty(),
    }
}

/// What the inputs of a turn say, input by input.
pub open spec fn all_inputs_say(ids: Seq<Seq<char>>, inputs: Seq<UserInputView>) -> Seq<Said>
    decreases inputs.len(),
{
    if inputs.len() == 0 {
        Seq::empty()
    } else {
        let first = input_says(ids, inputs[0]);
        first + all_inputs_say(ids + called_ids(first), inputs.drop_first())
    }
}

proof fn spoken_push(transcript: Seq<ChatMessageView>, message: ChatMessageView)
    ensures
        spoken(transcript.push(message)) == spoken(transcript) + says(message),
    decreases transcript.len(),
{
    if transcript.len() == 0 {
        let rest = transcript.push(message).drop_first();
        assert(rest =~= Seq::empty());
        assert(spoken(rest) =~= Seq::empty());
        assert(spoken(transcript.push(message)) =~= spoken(transcript) + says(message));
    } else {
        assert(transcript.push(message).drop_first() =~= transcript.drop_first().push(message));
        spoken_push(transcript.drop_first(), message);
        assert(spoken(transcript.push(message)) =~= spoken(transcript) + says(message));
    }
}

proof fn called_ids_add(left: Seq<Said>, right: Seq<Said>)
    ensures
        called_ids(left + right) == called_ids(left) + called_ids(right),
    decreases left.len(),
{
    if left.len() == 0 {
        assert(left + right =~= right);
        assert(called_ids(left) + called_ids(right) =~= called_ids(right));
    } else {
        assert((left + right).drop_first() =~= left.drop_first() + right);
        called_ids_add(left.drop_first(), right);
        assert(called_ids(left + right) =~= called_ids(left) + called_ids(right));
    }
}

proof fn called_ids_one(said: Said)
    ensures
        called_ids(seq![said]) == (match said {
            Said::Call(request) => seq![request.id],
            _ => Seq::empty(),
        }),
{
    reveal_with_fuel(called_ids, 2);
    assert(seq![said].drop_first() =~= Seq::empty());
    assert(called_ids(seq![said]) =~= (match said {
        Said::Call(request) => seq![request.id],
        _ => Seq::empty(),
    }));
}

/// What a transcript in the making keeps to: the ids that it knows are those of its calls.
spec fn knows_calls(history: History) -> bool {
    history.known == called_ids(spoken(history.transcript))
}

/// Whether a transcript in the making is another one with more said.
spec fn extends(after: History, before: History, more: Seq<Said>) -> bool {
    spoken(after.transcript) == spoken(before.transcript) + more && knows_calls(after)
}

proof fn said_extends(history: History, message: ChatMessageView)
    requires
        knows_calls(history),
        called_ids(says(message)).len() == 0,
    ensures
        extends(plan::said(history, message), history, says(message)),
{
    spoken_push(history.transcript, message);
    called_ids_add(spoken(history.transcript), says(message));
    assert(called_ids(spoken(history.transcript)) + called_ids(says(message)) =~= history.known);
}

proof fn called_extends(history: History, request: ToolCallRequestView)
    requires
        knows_calls(history),
    ensures
        extends(plan::called(history, request), history, seq![Said::Call(request)]),
{
    let before = history.transcript;
    let after = plan::with_call(before, request);
    let one = seq![Said::Call(request)];
    if before.len() > 0 && before.last() is Assistant {
        let stem = before.drop_last();
        let old_message = before.last();
        let new_message = after.last();
        assert(before =~= stem.push(old_message));
        assert(after =~= stem.push(new_message));
        spoken_push(stem, old_message);
        spoken_push(stem, new_message);
        assert(says(new_message) =~= says(old_message) + one);
        assert(spoken(after) =~= spoken(before) + one);
    } else {
        let message = ChatMessageView::Assistant { text: Seq::empty(), tool_calls: seq![request] };
        spoken_push(before, message);
        assert(says(message) =~= one);
    }
    called_ids_add(spoken(before), one);
    called_ids_one(Said::Call(request));
    assert(history.known.push(request.id) =~= history.known + seq![request.id]);
}

proof fn message_extends(history: History, tools: ToolRegistryView, message: MessageView)
    requires
        knows_calls(history),
    ensures
        extends(
            plan::after_message(history, tools, message),
            history,
            log_says(history.known, tools, message),
        ),
{
    assert(spoken(history.transcript) + Seq::<Said>::empty() =~= spoken(history.transcript));
    match message.message {
        Some(MessageContentView::UserQuery(query)) => {
            called_ids_one(Said::Query(query.query));
            said_extends(history, ChatMessageView::User(query.query));
        },
        Some(MessageContentView::AgentOutput(output)) => {
            if output.text.len() > 0 {
                let reply = ChatMessageView::Assistant {
                    text: output.text,
                    tool_calls: Seq::empty(),
                };
                assert(says(reply) =~= seq![Said::Reply(output.text)]);
                called_ids_one(Said::Reply(output.text));
                said_extends(history, reply);
            }
        },
        Some(MessageContentView::ToolCall(call)) => {
            if let Some(request) = registry::replayed_call(tools, call) {
                called_extends(history, request);
            }
        },
        Some(MessageContentView::ToolCallResult(result)) => {
            let content = render::result_text(result);
            called_ids_one(Said::Answer(result.tool_call_id, content));
            if history.known.contains(result.tool_call_id) {
                said_extends(
                    history,
                    ChatMessageView::Tool { tool_call_id: result.tool_call_id, content },
                );
            }
        },
        _ => {},
    }
}

proof fn all_log_says_push(
    ids: Seq<Seq<char>>,
    tools: ToolRegistryView,
    messages: Seq<MessageView>,
    last: MessageView,
)
    ensures
        all_log_says(ids, tools, messages.push(last)) == all_log_says(ids, tools, messages)
            + log_says(ids + called_ids(all_log_says(ids, tools, messages)), tools, last),
    decreases messages.len(),
{
    let whole = messages.push(last);
    if messages.len() == 0 {
        let rest = whole.drop_first();
        assert(rest =~= Seq::empty());
        assert(all_log_says(ids, tools, messages) =~= Seq::empty());
        assert(called_ids(Seq::<Said>::empty()) =~= Seq::empty());
        assert(ids + Seq::<Seq<char>>::empty() =~= ids);
        let first = log_says(ids, tools, last);
        assert(all_log_says(ids + called_ids(first), tools, rest) =~= Seq::empty());
        assert(all_log_says(ids, tools, whole) =~= first);
        assert(all_log_says(ids, tools, messages) + first =~= first);
    } else {
        let first = log_says(ids, tools, messages[0]);
        let then = ids + called_ids(first);
        let rest = messages.drop_first();
        assert(whole.drop_first() =~= rest.push(last));
        all_log_says_push(then, tools, rest, last);
        let tail = all_log_says(then, tools, rest);
        called_ids_add(first, tail);
        assert(then + called_ids(tail) =~= ids + called_ids(first + tail));
        assert(all_log_says(ids, tools, whole) =~= first + tail + log_says(
            ids + called_ids(first + tail),
            tools,
            last,
        ));
    }
}

proof fn messages_extend(
    history: History,
    tools: ToolRegistryView,
    messages: Seq<MessageView>,
    count: nat,
)
    requires
        knows_calls(history),
        count <= messages.len(),
    ensures
        extends(
            plan::after_messages(history, tools, messages, count),
            history,
            all_log_says(history.known, tools, messages.take(count as int)),
        ),
    decreases count,
{
    if count == 0 {
        assert(messages.take(0) =~= Seq::empty());
        assert(spoken(history.transcript) + Seq::<Said>::empty() =~= spoken(history.transcript));
    } else {
        let less = (count - 1) as nat;
        messages_extend(history, tools, messages, less);
        let before = plan::after_messages(history, tools, messages, less);
        let last = messages[count - 1];
        let so_far = all_log_says(history.known, tools, messages.take(less as int));
        message_extends(before, tools, last);
        called_ids_add(spoken(history.transcript), so_far);
        assert(before.known == history.known + called_ids(so_far));
        assert(messages.take(count as int) =~= messages.take(less as int).push(last));
        all_log_says_push(history.known, tools, messages.take(less as int), last);
        assert(spoken(plan::after_message(before, tools, last).transcript) =~= spoken(
            history.transcript,
        ) + all_log_says(history.known, tools, messages.take(count as int)));
    }
}

proof fn all_log_says_add(
    ids: Seq<Seq<char>>,
    tools: ToolRegistryView,
    left: Seq<MessageView>,
    right: Seq<MessageView>,
)
    ensures
        all_log_says(ids, tools, left + right) == all_log_says(ids, tools, left) + all_log_says(
            ids + called_ids(all_log_says(ids, tools, left)),
            tools,
            right,
        ),
    decreases left.len(),
{
    if left.len() == 0 {
        assert(left + right =~= right);
        assert(called_ids(Seq::<Said>::empty()) =~= Seq::empty());
        assert(ids + Seq::<Seq<char>>::empty() =~= ids);
        assert(all_log_says(ids, tools, left) =~= Seq::empty());
        assert(Seq::<Said>::empty() + all_log_says(ids, tools, right) =~= all_log_says(
            ids,
            tools,
            right,
        ));
    } else {
        let first = log_says(ids, tools, left[0]);
        let then = ids + called_ids(first);
        let rest = left.drop_first();
        assert((left + right).drop_first() =~= rest + right);
        all_log_says_add(then, tools, rest, right);
        let tail = all_log_says(then, tools, rest);
        called_ids_add(first, tail);
        assert(then + called_ids(tail) =~= ids + called_ids(first + tail));
        assert(all_log_says(ids, tools, left + right) =~= first + tail + all_log_says(
            ids + called_ids(first + tail),
            tools,
            right,
        ));
    }
}

proof fn whole_log_push(tasks: Seq<TaskView>, last: TaskView)
    ensures
        whole_log(tasks.push(last)) == whole_log(tasks) + last.messages,
    decreases tasks.len(),
{
    if tasks.len() == 0 {
        let rest = tasks.push(last).drop_first();
        assert(rest =~= Seq::empty());
        assert(whole_log(rest) =~= Seq::empty());
        assert(whole_log(tasks.push(last)) =~= whole_log(tasks) + last.messages);
    } else {
        assert(tasks.push(last).drop_first() =~= tasks.drop_first().push(last));
        whole_log_push(tasks.drop_first(), last);
        assert(whole_log(tasks.push(last)) =~= whole_log(tasks) + last.messages);
    }
}

proof fn tasks_extend(
    history: History,
    tools: ToolRegistryView,
    tasks: Seq<TaskView>,
    count: nat,
)
    requires
        knows_calls(history),
        count <= tasks.len(),
    ensures
        extends(
            plan::after_tasks(history, tools, tasks, count),
            history,
            all_log_says(history.known, tools, whole_log(tasks.take(count as int))),
        ),
    decreases count,
{
    if count == 0 {
        assert(tasks.take(0) =~= Seq::empty());
        assert(spoken(history.transcript) + Seq::<Said>::empty() =~= spoken(history.transcript));
    } else {
        let less = (count - 1) as nat;
        tasks_extend(history, tools, tasks, less);
        let before = plan::after_tasks(history, tools, tasks, less);
        let task = tasks[count - 1];
        let log = whole_log(tasks.take(less as int));
        let so_far = all_log_says(history.known, tools, log);
        messages_extend(before, tools, task.messages, task.messages.len());
        assert(task.messages.take(task.messages.len() as int) =~= task.messages);
        called_ids_add(spoken(history.transcript), so_far);
        assert(before.known == history.known + called_ids(so_far));
        assert(tasks.take(count as int) =~= tasks.take(less as int).push(task));
        whole_log_push(tasks.take(less as int), task);
        all_log_says_add(history.known, tools, log, task.messages);
        assert(spoken(plan::after_tasks(history, tools, tasks, count).transcript) =~= spoken(
            history.transcript,
        ) + all_log_says(history.known, tools, whole_log(tasks.take(count as int))));
    }
}

proof fn suggestion_extends(history: History, result: PassiveSuggestionResultTypeView)
    requires
        knows_calls(history),
    ensures
        extends(
            plan::after_suggestion(history, result),
            history,
            (match result.trigger {
                Some(trigger) => seq![Said::Query(plan::trigger_note(trigger))],
                None => Seq::empty(),
            }) + (match result.suggestion {
                Some(PassiveSuggestionView::Prompt(prompt)) => seq![Said::Query(prompt.prompt)],
                _ => Seq::empty(),
            }),
        ),
{
    let note = match result.trigger {
        Some(trigger) => seq![Said::Query(plan::trigger_note(trigger))],
        None => Seq::<Said>::empty(),
    };
    let asked = match result.suggestion {
        Some(PassiveSuggestionView::Prompt(prompt)) => seq![Said::Query(prompt.prompt)],
        _ => Seq::<Said>::empty(),
    };
    let noted = match result.trigger {
        Some(trigger) => plan::said(history, ChatMessageView::User(plan::trigger_note(trigger))),
        None => history,
    };
    if let Some(trigger) = result.trigger {
        called_ids_one(Said::Query(plan::trigger_note(trigger)));
        said_extends(history, ChatMessageView::User(plan::trigger_note(trigger)));
    }
    assert(spoken(noted.transcript) =~= spoken(history.transcript) + note);
    assert(knows_calls(noted));
    if let Some(PassiveSuggestionView::Prompt(prompt)) = result.suggestion {
        called_ids_one(Said::Query(prompt.prompt));
        said_extends(noted, ChatMessageView::User(prompt.prompt));
    }
    assert(spoken(plan::after_suggestion(history, result).transcript) =~= spoken(history.transcript)
        + (note + asked));
}

proof fn input_extends(history: History, input: UserInputView)
    requires
        knows_calls(history),
    ensures
        extends(plan::after_input(history, input), history, input_says(history.known, input)),
{
    assert(spoken(history.transcript) + Seq::<Said>::empty() =~= spoken(history.transcript));
    match input.input {
        Some(UserInputKindView::UserQuery(query)) => {
            called_ids_one(Said::Query(query.query));
            said_extends(history, ChatMessageView::User(query.query));
        },
        Some(UserInputKindView::ToolCallResult(result)) => {
            results_are_carried_over(result);
            let id = result.tool_call_id;
            let content = render::result_text(plan::logged_call_result(result));
            assert(content == answer_of(result));
            let answer = ChatMessageView::Tool { tool_call_id: id, content };
            called_ids_one(Said::Answer(id, content));
            if history.known.contains(id) {
                said_extends(history, answer);
                assert(Seq::<Said>::empty() + says(answer) =~= says(answer));
            } else {
                let call = ChatMessageView::Assistant {
                    text: Seq::empty(),
                    tool_calls: seq![plan::stand_in_call(id)],
                };
                let one = seq![Said::Call(plan::stand_in_call(id))];
                let defined = History {
                    transcript: history.transcript.push(call),
                    known: history.known.push(id),
                };
                spoken_push(history.transcript, call);
                assert(says(call) =~= one);
                called_ids_add(spoken(history.transcript), one);
                called_ids_one(Said::Call(plan::stand_in_call(id)));
                assert(defined.known =~= history.known + seq![id]);
                said_extends(defined, answer);
                assert(spoken(plan::after_input(history, input).transcript) =~= spoken(
                    history.transcript,
                ) + (one + says(answer)));
            }
        },
        Some(UserInputKindView::PassiveSuggestionResult(accepted)) => {
            if let Some(result) = accepted.result {
                suggestion_extends(history, result);
            }
        },
        _ => {},
    }
}

proof fn all_inputs_say_push(
    ids: Seq<Seq<char>>,
    inputs: Seq<UserInputView>,
    last: UserInputView,
)
    ensures
        all_inputs_say(ids, inputs.push(last)) == all_inputs_say(ids, inputs) + input_says(
            ids + called_ids(all_inputs_say(ids, inputs)),
            last,
        ),
    decreases inputs.len(),
{
    let whole = inputs.push(last);
    if inputs.len() == 0 {
        let rest = whole.drop_first();
        assert(rest =~= Seq::empty());
        assert(all_inputs_say(ids, inputs) =~= Seq::empty());
        assert(called_ids(Seq::<Said>::empty()) =~= Seq::empty());
        assert(ids + Seq::<Seq<char>>::empty() =~= ids);
        let first = input_says(ids, last);
        assert(all_inputs_say(ids + called_ids(first), rest) =~= Seq::empty());
        assert(all_inputs_say(ids, whole) =~= first);
        assert(all_inputs_say(ids, inputs) + first =~= first);
    } else {
        let first = input_says(ids, inputs[0]);
        let then = ids + called_ids(first);
        let rest = inputs.drop_first();
        assert(whole.drop_first() =~= rest.push(last));
        all_inputs_say_push(then, rest, last);
        let tail = all_inputs_say(then, rest);
        called_ids_add(first, tail);
        assert(then + called_ids(tail) =~= ids + called_ids(first + tail));
        assert(all_inputs_say(ids, whole) =~= first + tail + input_says(
            ids + called_ids(first + tail),
            last,
        ));
    }
}

proof fn inputs_extend(history: History, inputs: Seq<UserInputView>, count: nat)
    requires
        knows_calls(history),
        count <= inputs.len(),
    ensures
        extends(
            plan::after_inputs(history, inputs, count),
            history,
            all_inputs_say(history.known, inputs.take(count as int)),
        ),
    decreases count,
{
    if count == 0 {
        assert(inputs.take(0) =~= Seq::empty());
        assert(spoken(history.transcript) + Seq::<Said>::empty() =~= spoken(history.transcript));
    } else {
        let less = (count - 1) as nat;
        inputs_extend(history, inputs, less);
        let before = plan::after_inputs(history, inputs, less);
        let last = inputs[count - 1];
        let so_far = all_inputs_say(history.known, inputs.take(less as int));
        input_extends(before, last);
        called_ids_add(spoken(history.transcript), so_far);
        assert(before.known == history.known + called_ids(so_far));
        assert(inputs.take(count as int) =~= inputs.take(less as int).push(last));
        all_inputs_say_push(history.known, inputs.take(less as int), last);
        assert(spoken(plan::after_inputs(history, inputs, count).transcript) =~= spoken(
            history.transcript,
        ) + all_inputs_say(history.known, inputs.take(count as int)));
    }
}

/// The tasks that a request brings.
pub open spec fn brought_tasks(request: RequestView) -> Seq<TaskView> {
    match request.task_context {
        Some(context) => context.tasks,
        None => Seq::empty(),
    }
}

proof fn opened_knows(prompt: Seq<char>)
    ensures
        knows_calls(plan::opened(prompt)),
        spoken(plan::opened(prompt).transcript) == seq![Said::Prompt(prompt)],
{
    let transcript = plan::opened(prompt).transcript;
    reveal_with_fuel(spoken, 2);
    assert(transcript.drop_first() =~= Seq::empty());
    assert(spoken(transcript) =~= seq![Said::Prompt(prompt)]);
    called_ids_one(Said::Prompt(prompt));
}

/// The model of an agent turn is told the system prompt, then all that the log of the conversation
/// says, message by message over all tasks, and then all that the inputs of the turn say, in this
/// order and nothing besides.
pub proof fn agent_turn_tells_everything(
    request: RequestView,
    context: Option<InputContextView>,
    inputs: Seq<UserInputView>,
)
    ensures
        ({
            let logged = all_log_says(
                Seq::empty(),
                registry::agent_registry(request.mcp_context),
                whole_log(brought_tasks(request)),
            );
            let prompt = prompt::prompt_text(
                prompt::STATIC_INSTRUCTIONS@,
                plan::environment_of(context),
            );
            spoken(plan::agent_transcript(request, context, inputs)) == seq![Said::Prompt(prompt)]
                + logged + all_inputs_say(called_ids(logged), inputs)
        }),
{
    let tools = plan::agent_tools(request);
    let tasks = brought_tasks(request);
    let prompt = prompt::prompt_text(prompt::STATIC_INSTRUCTIONS@, plan::environment_of(context));
    let start = plan::opened(prompt);
    opened_knows(prompt);
    tasks_extend(start, tools, tasks, tasks.len());
    assert(tasks.take(tasks.len() as int) =~= tasks);
    assert(start.known =~= Seq::empty());
    let history = plan::agent_history(request, context);
    let logged = all_log_says(Seq::empty(), tools, whole_log(tasks));
    called_ids_add(seq![Said::Prompt(prompt)], logged);
    called_ids_one(Said::Prompt(prompt));
    assert(history.known =~= called_ids(logged));
    inputs_extend(history, inputs, inputs.len());
    assert(inputs.take(inputs.len() as int) =~= inputs);
}

/// The model of a passive suggestion turn is told the system prompt, then all that the log of the
/// conversation says, as far as its one tool can express it, and then the instruction.
pub proof fn suggestion_turn_tells_everything(
    request: RequestView,
    context: Option<InputContextView>,
    instruction: Seq<char>,
)
    ensures
        ({
            let logged = all_log_says(
                Seq::empty(),
                registry::suggestion_registry(),
                whole_log(brought_tasks(request)),
            );
            let prompt = prompt::prompt_text(
                prompt::SUGGESTION_INSTRUCTIONS@,
                plan::environment_of(context),
            );
            spoken(
                plan::suggestion_history(request, context).transcript.push(
                    ChatMessageView::User(instruction),
                ),
            ) == seq![Said::Prompt(prompt)] + logged + seq![Said::Query(instruction)]
        }),
{
    let tools = registry::suggestion_registry();
    let tasks = brought_tasks(request);
    let prompt = prompt::prompt_text(
        prompt::SUGGESTION_INSTRUCTIONS@,
        plan::environment_of(context),
    );
    let start = plan::opened(prompt);
    opened_knows(prompt);
    tasks_extend(start, tools, tasks, tasks.len());
    assert(tasks.take(tasks.len() as int) =~= tasks);
    assert(start.known =~= Seq::empty());
    spoken_push(
        plan::suggestion_history(request, context).transcript,
        ChatMessageView::User(instruction),
    );
}

/// Whether every message of an assistant has something to it.
pub open spec fn no_empty_reply(transcript: Seq<ChatMessageView>) -> bool {
    forall|j: int|
        0 <= j < transcript.len() ==> ((
        #[trigger] transcript[j]) matches ChatMessageView::Assistant { text: content, tool_calls }
            ==> content.len() > 0 || tool_calls.len() > 0)
}

/// Whether the calls of one reply stand in one message: a message of an assistant right behind
/// another begins a reply of its own, with its text.
pub open spec fn replies_are_whole(transcript: Seq<ChatMessageView>) -> bool {
    forall|i: int, j: int|
        0 <= i < j < transcript.len() && j == i + 1 && (#[trigger] transcript[i]) is Assistant ==> ((
        #[trigger] transcript[j]) matches ChatMessageView::Assistant { text: content, .. }
            ==> content.len() > 0)
}

proof fn message_keeps_replies(history: History, tools: ToolRegistryView, message: MessageView)
    requires
        no_empty_reply(history.transcript),
        replies_are_whole(history.transcript),
    ensures
        no_empty_reply(plan::after_message(history, tools, message).transcript),
        replies_are_whole(plan::after_message(history, tools, message).transcript),
{
    let before = history.transcript;
    let after = plan::after_message(history, tools, message).transcript;
    if after != before {
        assert forall|i: int| 0 <= i < before.len() - 1 implies after[i] == before[i] by {}
        if after.len() == before.len() {
            let last = before.len() - 1;
            assert(after[last]->text == before[last]->text);
            assert(after[last]->tool_calls.len() > 0);
        } else {
            assert(after[before.len() - 1] == before[before.len() - 1] || before.len() == 0);
        }
    }
}

proof fn messages_keep_replies(
    history: History,
    tools: ToolRegistryView,
    messages: Seq<MessageView>,
    count: nat,
)
    requires
        count <= messages.len(),
        no_empty_reply(history.transcript),
        replies_are_whole(history.transcript),
    ensures
        no_empty_reply(plan::after_messages(history, tools, messages, count).transcript),
        replies_are_whole(plan::after_messages(history, tools, messages, count).transcript),
    decreases count,
{
    if count > 0 {
        let less = (count - 1) as nat;
        messages_keep_replies(history, tools, messages, less);
        message_keeps_replies(
            plan::after_messages(history, tools, messages, less),
            tools,
            messages[count - 1],
        );
    }
}

proof fn tasks_keep_replies(
    history: History,
    tools: ToolRegistryView,
    tasks: Seq<TaskView>,
    count: nat,
)
    requires
        count <= tasks.len(),
        no_empty_reply(history.transcript),
        replies_are_whole(history.transcript),
    ensures
        no_empty_reply(plan::after_tasks(history, tools, tasks, count).transcript),
        replies_are_whole(plan::after_tasks(history, tools, tasks, count).transcript),
    decreases count,
{
    if count > 0 {
        let less = (count - 1) as nat;
        tasks_keep_replies(history, tools, tasks, less);
        messages_keep_replies(
            plan::after_tasks(history, tools, tasks, less),
            tools,
            tasks[count - 1].messages,
            tasks[count - 1].messages.len(),
        );
    }
}

proof fn inputs_add_no_empty_reply(history: History, inputs: Seq<UserInputView>, count: nat)
    requires
        count <= inputs.len(),
        no_empty_reply(history.transcript),
    ensures
        no_empty_reply(plan::after_inputs(history, inputs, count).transcript),
    decreases count,
{
    if count > 0 {
        inputs_add_no_empty_reply(history, inputs, (count - 1) as nat);
    }
}

/// The transcript of an agent turn has no empty reply. In the part that comes out of the log, the
/// calls of a reply stand in the message with its text.
pub proof fn agent_turn_keeps_replies(
    request: RequestView,
    context: Option<InputContextView>,
    inputs: Seq<UserInputView>,
)
    ensures
        no_empty_reply(plan::agent_transcript(request, context, inputs)),
        replies_are_whole(plan::agent_transcript(request, context, Seq::empty())),
{
    let tasks = plan::tasks_of(request);
    let prompt = prompt::prompt_text(prompt::STATIC_INSTRUCTIONS@, plan::environment_of(context));
    tasks_keep_replies(plan::opened(prompt), plan::agent_tools(request), tasks, tasks.len());
    inputs_add_no_empty_reply(plan::agent_history(request, context), inputs, inputs.len());
}

/// The transcript of a passive suggestion turn has no empty reply, and the calls of a reply stand in
/// the message with its text.
pub proof fn suggestion_turn_keeps_replies(request: RequestView, context: Option<InputContextView>)
    ensures
        no_empty_reply(plan::suggestion_history(request, context).transcript),
        replies_are_whole(plan::suggestion_history(request, context).transcript),
{
    let tasks = plan::tasks_of(request);
    let prompt = prompt::prompt_text(
        prompt::SUGGESTION_INSTRUCTIONS@,
        plan::environment_of(context),
    );
    tasks_keep_replies(plan::opened(prompt), registry::suggestion_registry(), tasks, tasks.len());
}

/// What the log keeps of an input, so that the next turn is told of it: a query with all that
/// belongs to it, a tool result, or the prompt of an accepted suggestion as a query.
pub open spec fn keeps(input: UserInputView, context: Option<InputContextView>) -> Seq<
    MessageContentView,
> {
    match input.input {
        Some(UserInputKindView::UserQuery(query)) => seq![
            MessageContentView::UserQuery(
                UserQueryView {
                    query: query.query,
                    context,
                    referenced_attachments: query.referenced_attachments,
                    mode: query.mode,
                    intended_agent: query.intended_agent,
                },
            ),
        ],
        Some(UserInputKindView::ToolCallResult(result)) => seq![
            MessageContentView::ToolCallResult(
                ToolCallResultView {
                    tool_call_id: result.tool_call_id,
                    context: None,
                    result: carried_over(result.result),
                },
            ),
        ],
        Some(UserInputKindView::PassiveSuggestionResult(accepted)) => match accepted.result {
            Some(result) => match result.suggestion {
                Some(PassiveSuggestionView::Prompt(prompt)) => seq![
                    MessageContentView::UserQuery(
                        UserQueryView {
                            query: prompt.prompt,
                            context,
                            referenced_attachments: context::nothing(),
                            mode: None,
                            intended_agent: 0,
                        },
                    ),
                ],
                _ => Seq::empty(),
            },
            None => Seq::empty(),
        },
        _ => Seq::empty(),
    }
}

/// What the log keeps of the inputs of a turn, input by input.
pub open spec fn all_kept(inputs: Seq<UserInputView>, context: Option<InputContextView>) -> Seq<
    MessageContentView,
>
    decreases inputs.len(),
{
    if inputs.len() == 0 {
        Seq::empty()
    } else {
        keeps(inputs[0], context) + all_kept(inputs.drop_first(), context)
    }
}

proof fn all_kept_push(
    inputs: Seq<UserInputView>,
    last: UserInputView,
    context: Option<InputContextView>,
)
    ensures
        all_kept(inputs.push(last), context) == all_kept(inputs, context) + keeps(last, context),
    decreases inputs.len(),
{
    if inputs.len() == 0 {
        let rest = inputs.push(last).drop_first();
        assert(rest =~= Seq::empty());
        assert(all_kept(rest, context) =~= Seq::empty());
        assert(all_kept(inputs.push(last), context) =~= all_kept(inputs, context) + keeps(
            last,
            context,
        ));
    } else {
        assert(inputs.push(last).drop_first() =~= inputs.drop_first().push(last));
        all_kept_push(inputs.drop_first(), last, context);
        assert(all_kept(inputs.push(last), context) =~= all_kept(inputs, context) + keeps(
            last,
            context,
        ));
    }
}

proof fn echoes_keep(inputs: Seq<UserInputView>, context: Option<InputContextView>, count: nat)
    requires
        count <= inputs.len(),
    ensures
        plan::echoes_of(inputs, context, count) == all_kept(inputs.take(count as int), context),
    decreases count,
{
    if count == 0 {
        assert(inputs.take(0) =~= Seq::empty());
        assert(plan::echoes_of(inputs, context, 0) =~= all_kept(inputs.take(0), context));
    } else {
        let less = (count - 1) as nat;
        echoes_keep(inputs, context, less);
        let last = inputs[count - 1];
        assert(inputs.take(count as int) =~= inputs.take(less as int).push(last));
        all_kept_push(inputs.take(less as int), last, context);
        assert(plan::echoes_of(inputs, context, count) =~= all_kept(
            inputs.take(count as int),
            context,
        ));
    }
}

/// Whether messages are new ones of a task, one for each of the contents, in order.
pub open spec fn are_new_messages(
    messages: Seq<MessageView>,
    task_id: Seq<char>,
    contents: Seq<MessageContentView>,
) -> bool {
    messages.len() == contents.len() && forall|i: int|
        0 <= i < messages.len() ==> ids::is_uuid((#[trigger] messages[i]).id) && messages[i].task_id
            == task_id && messages[i].message == Some(contents[i]) && mapped::holds_nothing_else(
            messages[i],
        )
}

/// Whether a plan belongs to the conversation and the task of a request: those that the request
/// names, and new ones where it names none.
pub open spec fn belongs(request: RequestView, plan: TurnPlanView) -> bool {
    let tasks = brought_tasks(request);
    &&& plan.is_first_turn <==> tasks.len() == 0
    &&& if tasks.len() == 0 {
        ids::is_uuid(plan.root_task_id)
    } else {
        plan.root_task_id == tasks[0].id
    }
    &&& match request.metadata {
        Some(metadata) => if metadata.conversation_id.len() > 0 {
            plan.conversation_id == metadata.conversation_id
        } else {
            ids::is_uuid(plan.conversation_id)
        },
        None => ids::is_uuid(plan.conversation_id),
    }
    &&& ids::is_uuid(plan.request_id)
}

/// A turn of a conversation is planned exactly where each of its inputs is a query, a tool result
/// or an accepted suggestion. The plan belongs to the request, answers with the model of the route,
/// offers the tools that the request brings, and keeps the inputs for the log.
pub proof fn conversation_turns_are_planned(
    request: RequestView,
    route: LocalRouteView,
    planned: Result<TurnPlanView, AdapterErrorView>,
    inputs: Seq<UserInputView>,
)
    requires
        plan::plans_turn(request, route, planned),
        request.input matches Some(input) && (input.kind matches Some(
            InputKindView::UserInputs(turn),
        ) && turn.inputs == inputs),
    ensures
        planned is Ok <==> (forall|i: int|
            0 <= i < inputs.len() ==> route::conversational(#[trigger] inputs[i])),
        planned matches Err(error) ==> error == AdapterErrorView::UnsupportedInput(
            "only user queries, tool call results, and passive suggestion results are supported"@,
        ),
        planned matches Ok(plan) ==> ({
            let context = request.input->0.context;
            let logged = all_log_says(
                Seq::empty(),
                registry::agent_registry(request.mcp_context),
                whole_log(brought_tasks(request)),
            );
            let prompt = prompt::prompt_text(
                prompt::STATIC_INSTRUCTIONS@,
                plan::environment_of(context),
            );
            &&& belongs(request, plan)
            &&& plan.config_key == route.config_key
            &&& plan.tools == registry::agent_registry(request.mcp_context)
            &&& spoken(plan.transcript) == seq![Said::Prompt(prompt)] + logged + all_inputs_say(
                called_ids(logged),
                inputs,
            )
            &&& are_new_messages(
                plan.input_echo_messages,
                plan.root_task_id,
                all_kept(inputs, context),
            )
        }),
{
    let context = request.input->0.context;
    agent_turn_tells_everything(request, context, inputs);
    echoes_keep(inputs, context, inputs.len());
    assert(inputs.take(inputs.len() as int) =~= inputs);
    if planned is Ok {
        assert forall|i: int| 0 <= i < inputs.len() implies route::conversational(
            #[trigger] inputs[i],
        ) by {
            assert(route::understood(inputs[i]));
        }
        let plan = planned->Ok_0;
        let kept = all_kept(inputs, context);
        assert forall|i: int| 0 <= i < plan.input_echo_messages.len() implies ids::is_uuid(
            (#[trigger] plan.input_echo_messages[i]).id,
        ) && plan.input_echo_messages[i].task_id == plan.root_task_id
            && plan.input_echo_messages[i].message == Some(kept[i]) && mapped::holds_nothing_else(
            plan.input_echo_messages[i],
        ) by {
            assert(plan::fresh_message(plan.input_echo_messages[i], plan.root_task_id, kept[i]));
        }
    } else if forall|i: int|
        0 <= i < inputs.len() ==> route::conversational(#[trigger] inputs[i]) {
        assert forall|i: int| 0 <= i < inputs.len() implies route::understood(
            #[trigger] inputs[i],
        ) by {
            assert(route::conversational(inputs[i]));
        }
    }
}

/// Whether a trigger's form in the log tells of the same thing.
pub open spec fn same_trigger(trigger: TriggerView, logged: LoggedTriggerView) -> bool {
    match (trigger, logged) {
        (
            TriggerView::ShellCommandCompleted(completed),
            LoggedTriggerView::ShellCommandCompleted(kept),
        ) => completed.executed_shell_command == kept.executed_shell_command
            && completed.relevant_files == kept.relevant_files,
        (TriggerView::AgentResponseCompleted(_), LoggedTriggerView::AgentResponseCompleted) => true,
        (TriggerView::FilesChanged, LoggedTriggerView::FilesChanged) => true,
        (TriggerView::CommandRun, LoggedTriggerView::CommandRun) => true,
        _ => false,
    }
}

/// The log's form of a trigger tells of the same thing.
pub proof fn triggers_are_carried_over(trigger: TriggerView)
    ensures
        same_trigger(trigger, plan::logged_trigger(trigger)),
{
}

/// A request for a passive suggestion is planned exactly where it comes after a shell command or a
/// response of the agent. The plan offers `suggest_prompt` and nothing else, and keeps what the
/// request came after, with all that belongs to it, for the log.
pub proof fn suggestion_turns_are_planned(
    request: RequestView,
    route: LocalRouteView,
    planned: Result<TurnPlanView, AdapterErrorView>,
    generate: GeneratePassiveSuggestionsView,
)
    requires
        plan::plans_turn(request, route, planned),
        request.input matches Some(input) && input.kind == Some(
            InputKindView::GeneratePassiveSuggestions(generate),
        ),
    ensures
        planned is Ok <==> (generate.trigger matches Some(trigger) && (
        trigger is ShellCommandCompleted || trigger is AgentResponseCompleted)),
        planned matches Err(error) ==> error == AdapterErrorView::UnsupportedInput(
            if generate.trigger is None {
                "passive suggestion request has no trigger"@
            } else {
                "deprecated passive suggestion trigger"@
            },
        ),
        planned matches Ok(plan) ==> ({
            let context = request.input->0.context;
            let logged = all_log_says(
                Seq::empty(),
                registry::suggestion_registry(),
                whole_log(brought_tasks(request)),
            );
            let prompt = prompt::prompt_text(
                prompt::SUGGESTION_INSTRUCTIONS@,
                plan::environment_of(context),
            );
            &&& belongs(request, plan)
            &&& plan.config_key == route.config_key
            &&& plan.tools.suggestion_only && plan.tools.mcp_tools.len() == 0
            &&& plan::instruction_for(generate.trigger->0) matches Some(instruction) && spoken(
                plan.transcript,
            ) == seq![Said::Prompt(prompt)] + logged + seq![Said::Query(instruction)]
            &&& plan.input_echo_messages.len() == 1 && ids::is_uuid(plan.input_echo_messages[0].id)
                && plan.input_echo_messages[0].task_id == plan.root_task_id
                && mapped::holds_nothing_else(plan.input_echo_messages[0]) && (
            plan.input_echo_messages[0].message matches Some(MessageContentView::SystemQuery(query))
                && query.context == context && (query.kind matches Some(
                SystemQueryKindView::GeneratePassiveSuggestions(kept),
            ) && kept.attachments == generate.attachments && (kept.trigger matches Some(trigger)
                && same_trigger(generate.trigger->0, trigger))))
        }),
{
    let context = request.input->0.context;
    if let Ok(plan) = planned {
        let instruction = plan::instruction_for(generate.trigger->0)->0;
        suggestion_turn_tells_everything(request, context, instruction);
        let contents = seq![
            plan::suggestion_echo(context, generate.attachments, generate.trigger->0),
        ];
        assert(plan::fresh_message(plan.input_echo_messages[0], plan.root_task_id, contents[0]));
    }
}

/// A request without an input, and one that is neither a turn of a conversation nor asks for a
/// passive suggestion, is not planned.
pub proof fn other_requests_are_not_planned(
    request: RequestView,
    route: LocalRouteView,
    planned: Result<TurnPlanView, AdapterErrorView>,
)
    requires
        plan::plans_turn(request, route, planned),
        !(request.input matches Some(input) && (input.kind matches Some(kind) && (
        kind is UserInputs || kind is GeneratePassiveSuggestions))),
    ensures
        planned matches Err(error) && error == AdapterErrorView::UnsupportedInput(
            match request.input {
                None => "request has no input"@,
                Some(input) => match input.kind {
                    None => "input has no type"@,
                    Some(_) => "system-driven inputs are served by the server path"@,
                },
            },
        ),
{
}

/// Whether a text tells of a shell command: the command, its exit code and all of its output.
pub open spec fn tells_command(shown: Seq<char>, command: ExecutedShellCommandView) -> bool {
    text::occurs_in(
        shown,
        command.command + "\nExit code: "@ + text::decimal(command.exit_code as int)
            + "\nOutput:\n"@ + command.output,
    )
}

proof fn five_behind(
    head: Seq<char>,
    a: Seq<char>,
    b: Seq<char>,
    c: Seq<char>,
    d: Seq<char>,
    e: Seq<char>,
)
    ensures
        head + a + b + c + d + e == head + (a + b + c + d + e),
{
    assert(head + a + b =~= head + (a + b));
    assert(head + (a + b) + c =~= head + (a + b + c));
    assert(head + (a + b + c) + d =~= head + (a + b + c + d));
    assert(head + (a + b + c + d) + e =~= head + (a + b + c + d + e));
}

proof fn framed_occurs(
    opening: Seq<char>,
    label: Seq<char>,
    told: Seq<char>,
    end: Seq<char>,
    rest: Seq<char>,
)
    ensures
        text::occurs_in(opening + (label + told + end) + rest, told),
{
    text::part_of_middle(label, told, end);
    text::part_of_middle(opening, label + told + end, rest);
    text::part_of_part(opening + (label + told + end) + rest, label + told + end, told);
}

proof fn end_occurs(head: Seq<char>, end: Seq<char>)
    ensures
        text::occurs_in(head + end, head),
        text::occurs_in(head + end, end),
{
    text::part_of_middle(head, end, Seq::empty());
    assert(head + end + Seq::<char>::empty() =~= head + end);
    text::part_of_middle(Seq::empty(), head, end);
    assert(Seq::<char>::empty() + head =~= head);
}

/// The note on what led to an accepted suggestion tells of the command, where it was one.
pub proof fn notes_tell_of_command(trigger: PassiveSuggestionTriggerView)
    requires
        trigger is ExecutedShellCommand,
    ensures
        tells_command(plan::trigger_note(trigger), trigger->ExecutedShellCommand_0),
{
    let command = trigger->ExecutedShellCommand_0;
    let head =
        "Context: this request follows a passive suggestion.\n\
             Triggered by shell command: "@;
    let code = text::decimal(command.exit_code as int);
    five_behind(head, command.command, "\nExit code: "@, code, "\nOutput:\n"@, command.output);
    end_occurs(
        head,
        command.command + "\nExit code: "@ + code + "\nOutput:\n"@ + command.output,
    );
}

/// How a relevant file is shown to the model.
pub open spec fn shown_file(path: Seq<char>, content: Seq<char>) -> Seq<char> {
    "=== "@ + path + " ===\n"@ + content + "\n"@
}

proof fn relevant_text_occurs(files: Seq<AnyFileContentView>, at: int, count: nat)
    requires
        0 <= at < count <= files.len(),
        files[at].content is Some,
        files[at].content->0 is TextContent,
    ensures
        text::occurs_in(
            plan::relevant_texts(files, count),
            shown_file(
                files[at].content->0->TextContent_0.file_path,
                files[at].content->0->TextContent_0.content,
            ),
        ),
    decreases count,
{
    let wanted = files[at].content->0->TextContent_0;
    let part = shown_file(wanted.file_path, wanted.content);
    let before = plan::relevant_texts(files, (count - 1) as nat);
    let all = plan::relevant_texts(files, count);
    if at < count - 1 {
        relevant_text_occurs(files, at, (count - 1) as nat);
    }
    if let Some(AnyFileContentKindView::TextContent(file)) = files[count - 1].content {
        let shown = shown_file(file.file_path, file.content);
        reveal_strlit("\n=== ");
        reveal_strlit("=== ");
        reveal_strlit("\n");
        assert("\n=== "@ =~= "\n"@ + "=== "@);
        five_behind(before, "\n=== "@, file.file_path, " ===\n"@, file.content, "\n"@);
        five_behind("\n"@, "=== "@, file.file_path, " ===\n"@, file.content, "\n"@);
        assert(all == before + ("\n"@ + shown));
        end_occurs(before, "\n"@ + shown);
        if at == count - 1 {
            end_occurs("\n"@, shown);
            text::part_of_part(all, "\n"@ + shown, part);
        } else {
            text::part_of_part(all, before, part);
        }
    }
}

/// The instruction after a shell command tells of the command, and of every relevant file that is a
/// text, with its path and all of its content.
pub proof fn instruction_tells_of_command(completed: CompletedShellCommandView)
    ensures
        ({
            let instruction = plan::instruction_for(TriggerView::ShellCommandCompleted(completed));
            &&& instruction is Some
            &&& completed.executed_shell_command matches Some(command) ==> tells_command(
                instruction->0,
                command,
            )
            &&& forall|i: int|
                #![trigger completed.relevant_files[i]]
                0 <= i < completed.relevant_files.len() ==> (
                completed.relevant_files[i].content matches Some(
                    AnyFileContentKindView::TextContent(file),
                ) ==> text::occurs_in(instruction->0, shown_file(file.file_path, file.content)))
        }),
{
    let files = completed.relevant_files;
    let instruction = plan::shell_instruction(completed);
    let texts = plan::relevant_texts(files, files.len());
    let opening =
        "The user just ran a shell command in their terminal. If a useful follow-up \
     exists, propose it via the `suggest_prompt` tool.\n"@;
    if let Some(command) = completed.executed_shell_command {
        let code = text::decimal(command.exit_code as int);
        let told = command.command + "\nExit code: "@ + code + "\nOutput:\n"@ + command.output;
        five_behind(
            "\nCommand: "@,
            command.command,
            "\nExit code: "@,
            code,
            "\nOutput:\n"@,
            command.output,
        );
        framed_occurs(opening, "\nCommand: "@, told, "\n"@, texts);
        end_occurs(opening + ("\nCommand: "@ + told + "\n"@), texts);
    } else {
        end_occurs(opening + Seq::empty(), texts);
    }
    assert(text::occurs_in(instruction, texts));
    assert forall|i: int|
        #![trigger completed.relevant_files[i]]
        0 <= i < completed.relevant_files.len() implies (
    completed.relevant_files[i].content matches Some(AnyFileContentKindView::TextContent(file))
        ==> text::occurs_in(instruction, shown_file(file.file_path, file.content))) by {
        if let Some(AnyFileContentKindView::TextContent(file)) = files[i].content {
            relevant_text_occurs(files, i, files.len());
            text::part_of_part(instruction, texts, shown_file(file.file_path, file.content));
        }
    }
}

/// After a response of the agent the model is asked for a follow-up to it, and an accepted
/// suggestion is noted as one that came after the response.
pub proof fn responses_are_told(
    after: TriggerView,
    accepted: PassiveSuggestionTriggerView,
)
    requires
        after is AgentResponseCompleted,
        accepted is AgentResponseCompleted,
    ensures
        plan::instruction_for(after) == Some(
            "The agent just completed the response above. If a useful follow-up prompt \
             exists for this conversation, propose it via the `suggest_prompt` tool."@,
        ),
        plan::trigger_note(accepted)
            == "Context: this request follows a passive suggestion.\n\
             Triggered after the agent completed its previous response."@,
{
}

/// New ids are taken only where a request names none: the first for its task and the second for
/// its conversation.
pub proof fn new_ids_fill_in(
    request: RequestView,
    task_id: Seq<char>,
    conversation_id: Seq<char>,
)
    ensures
        ({
            let identity = plan::identity_of(request, task_id, conversation_id);
            let tasks = brought_tasks(request);
            &&& identity.is_first_turn <==> tasks.len() == 0
            &&& identity.root_task_id == if tasks.len() == 0 {
                task_id
            } else {
                tasks[0].id
            }
            &&& identity.conversation_id == (match request.metadata {
                Some(metadata) => if metadata.conversation_id.len() > 0 {
                    metadata.conversation_id
                } else {
                    conversation_id
                },
                None => conversation_id,
            })
        }),
{
}

/// A line of the environment, where there is something to tell.
pub open spec fn line(label: Seq<char>, value: Seq<char>) -> Seq<char> {
    if value.len() == 0 {
        Seq::empty()
    } else {
        "- "@ + label + ": "@ + value + "\n"@
    }
}

/// The contents of rule files that are not empty, in order.
pub open spec fn rules_in(files: Seq<FileContentView>) -> Seq<Seq<char>>
    decreases files.len(),
{
    if files.len() == 0 {
        Seq::empty()
    } else {
        (if files[0].content.len() == 0 {
            Seq::empty()
        } else {
            seq![files[0].content]
        }) + rules_in(files.drop_first())
    }
}

/// The contents of the rule files of all rule sets, in order.
pub open spec fn all_rules(rules: Seq<ProjectRulesView>) -> Seq<Seq<char>>
    decreases rules.len(),
{
    if rules.len() == 0 {
        Seq::empty()
    } else {
        rules_in(rules[0].active_rule_files) + all_rules(rules.drop_first())
    }
}

proof fn rules_in_push(files: Seq<FileContentView>, last: FileContentView)
    ensures
        rules_in(files.push(last)) == rules_in(files) + (if last.content.len() == 0 {
            Seq::empty()
        } else {
            seq![last.content]
        }),
    decreases files.len(),
{
    let end = if last.content.len() == 0 {
        Seq::<Seq<char>>::empty()
    } else {
        seq![last.content]
    };
    if files.len() == 0 {
        let rest = files.push(last).drop_first();
        assert(rest =~= Seq::empty());
        assert(rules_in(rest) =~= Seq::empty());
        assert(rules_in(files.push(last)) =~= rules_in(files) + end);
    } else {
        assert(files.push(last).drop_first() =~= files.drop_first().push(last));
        rules_in_push(files.drop_first(), last);
        assert(rules_in(files.push(last)) =~= rules_in(files) + end);
    }
}

proof fn file_contents_are_rules(files: Seq<FileContentView>, count: nat)
    requires
        count <= files.len(),
    ensures
        plan::file_contents(files, count) == rules_in(files.take(count as int)),
    decreases count,
{
    if count == 0 {
        assert(files.take(0) =~= Seq::empty());
        assert(plan::file_contents(files, 0) =~= rules_in(files.take(0)));
    } else {
        file_contents_are_rules(files, (count - 1) as nat);
        assert(files.take(count as int) =~= files.take(count - 1).push(files[count - 1]));
        rules_in_push(files.take(count - 1), files[count - 1]);
        assert(plan::file_contents(files, count) =~= rules_in(files.take(count as int)));
    }
}

proof fn all_rules_push(rules: Seq<ProjectRulesView>, last: ProjectRulesView)
    ensures
        all_rules(rules.push(last)) == all_rules(rules) + rules_in(last.active_rule_files),
    decreases rules.len(),
{
    if rules.len() == 0 {
        let rest = rules.push(last).drop_first();
        assert(rest =~= Seq::empty());
        assert(all_rules(rest) =~= Seq::empty());
        assert(all_rules(rules.push(last)) =~= all_rules(rules) + rules_in(last.active_rule_files));
    } else {
        assert(rules.push(last).drop_first() =~= rules.drop_first().push(last));
        all_rules_push(rules.drop_first(), last);
        assert(all_rules(rules.push(last)) =~= all_rules(rules) + rules_in(last.active_rule_files));
    }
}

proof fn rule_contents_are_rules(rules: Seq<ProjectRulesView>, count: nat)
    requires
        count <= rules.len(),
    ensures
        plan::rule_contents(rules, count) == all_rules(rules.take(count as int)),
    decreases count,
{
    if count == 0 {
        assert(rules.take(0) =~= Seq::empty());
        assert(plan::rule_contents(rules, 0) =~= all_rules(rules.take(0)));
    } else {
        rule_contents_are_rules(rules, (count - 1) as nat);
        let last = rules[count - 1];
        file_contents_are_rules(last.active_rule_files, last.active_rule_files.len());
        assert(last.active_rule_files.take(last.active_rule_files.len() as int)
            =~= last.active_rule_files);
        assert(rules.take(count as int) =~= rules.take(count - 1).push(last));
        all_rules_push(rules.take(count - 1), last);
    }
}

/// The rules of a project as a prompt gives them, each on lines of its own.
pub open spec fn rules_told(rules: Seq<Seq<char>>) -> Seq<char>
    decreases rules.len(),
{
    if rules.len() == 0 {
        Seq::empty()
    } else {
        "\n"@ + rules[0] + "\n"@ + rules_told(rules.drop_first())
    }
}

proof fn rules_told_push(rules: Seq<Seq<char>>, last: Seq<char>)
    ensures
        rules_told(rules.push(last)) == rules_told(rules) + ("\n"@ + last + "\n"@),
    decreases rules.len(),
{
    let end = "\n"@ + last + "\n"@;
    if rules.len() == 0 {
        let rest = rules.push(last).drop_first();
        assert(rest =~= Seq::empty());
        assert(rules_told(rest) =~= Seq::empty());
        assert(rules_told(rules.push(last)) =~= rules_told(rules) + end);
    } else {
        assert(rules.push(last).drop_first() =~= rules.drop_first().push(last));
        rules_told_push(rules.drop_first(), last);
        assert(rules_told(rules.push(last)) =~= rules_told(rules) + end);
    }
}

proof fn rule_lines_are_told(rules: Seq<Seq<char>>, count: nat)
    requires
        count <= rules.len(),
    ensures
        prompt::rule_lines(rules, count) == rules_told(rules.take(count as int)),
    decreases count,
{
    if count == 0 {
        assert(rules.take(0) =~= Seq::empty());
        assert(prompt::rule_lines(rules, 0) =~= rules_told(rules.take(0)));
    } else {
        rule_lines_are_told(rules, (count - 1) as nat);
        assert(rules.take(count as int) =~= rules.take(count - 1).push(rules[count - 1]));
        rules_told_push(rules.take(count - 1), rules[count - 1]);
        assert(prompt::rule_lines(rules, count) =~= rules_told(rules.take(count as int)));
    }
}

/// A git repository by its name, behind its owner where that is known.
pub open spec fn repository(name: Seq<char>, owner: Seq<char>) -> Seq<char> {
    if owner.len() == 0 {
        name
    } else {
        owner + "/"@ + name
    }
}

/// The prompt of a turn is its instructions, and then what the context of the request tells of the
/// environment: each detail that is known and not empty on a line of its own under its own label,
/// and all rule files of the project that are not empty, verbatim and in order.
pub proof fn prompt_tells_environment(instructions: Seq<char>, context: InputContextView)
    ensures
        ({
            let pwd = match context.directory {
                Some(directory) => directory.pwd,
                None => Seq::empty(),
            };
            let home = match context.directory {
                Some(directory) => directory.home,
                None => Seq::empty(),
            };
            let shell = match context.shell {
                Some(shell) => shell.name,
                None => Seq::empty(),
            };
            let system = match context.operating_system {
                Some(system) => text::trim(system.platform + " "@ + system.distribution),
                None => Seq::empty(),
            };
            let branch = match context.git {
                Some(git) => git.branch,
                None => Seq::empty(),
            };
            let repo = match context.git {
                Some(git) => match git.repository {
                    Some(known) => repository(known.name, known.owner),
                    None => Seq::empty(),
                },
                None => Seq::empty(),
            };
            let time = match context.current_time {
                Some(time) => plan::timestamp_text(time.seconds, time.nanos),
                None => Seq::empty(),
            };
            let rules = all_rules(context.project_rules);
            prompt::prompt_text(instructions, plan::environment_of(Some(context))) == instructions
                + "\n\n## Environment\n"@ + (line("Working directory"@, pwd) + line(
                "Home directory"@,
                home,
            ) + line("Shell"@, shell) + line("Operating system"@, system) + line(
                "Git branch"@,
                branch,
            ) + line("Git repository"@, repo) + line("Current time"@, time)) + (if rules.len()
                == 0 {
                Seq::empty()
            } else {
                "\n## Project rules\n\nThe user has configured the following rules for this project. \
         Follow them:\n"@ + rules_told(rules)
            })
        }),
{
    let env = plan::environment_of(Some(context));
    rule_contents_are_rules(context.project_rules, context.project_rules.len());
    assert(context.project_rules.take(context.project_rules.len() as int)
        =~= context.project_rules);
    let rules = all_rules(context.project_rules);
    rule_lines_are_told(rules, rules.len());
    assert(rules.take(rules.len() as int) =~= rules);
    seven_lines(env);
}

/// A line of the environment for a detail that may be unknown.
pub open spec fn told_line(label: Seq<char>, value: Option<Seq<char>>) -> Seq<char> {
    match value {
        Some(value) => line(label, value),
        None => Seq::empty(),
    }
}

proof fn seven_lines(env: EnvironmentInfoView)
    ensures
        prompt::detail_lines(env, prompt::environment_details(env).len()) == told_line(
            "Working directory"@,
            env.pwd,
        ) + told_line("Home directory"@, env.home) + told_line("Shell"@, env.shell) + told_line(
            "Operating system"@,
            env.operating_system,
        ) + told_line("Git branch"@, env.git_branch) + told_line(
            "Git repository"@,
            env.git_repository,
        ) + told_line("Current time"@, env.current_time),
{
    reveal_with_fuel(prompt::detail_lines, 8);
    let first = told_line("Working directory"@, env.pwd);
    assert(Seq::<char>::empty() + first =~= first);
}

/// A prompt gives each detail of an environment that is known and not empty under its own label, in
/// a fixed order, and then the rules of the project.
pub proof fn prompt_tells_details(instructions: Seq<char>, env: EnvironmentInfoView)
    ensures
        prompt::prompt_text(instructions, env) == instructions + "\n\n## Environment\n"@ + (told_line(
            "Working directory"@,
            env.pwd,
        ) + told_line("Home directory"@, env.home) + told_line("Shell"@, env.shell) + told_line(
            "Operating system"@,
            env.operating_system,
        ) + told_line("Git branch"@, env.git_branch) + told_line(
            "Git repository"@,
            env.git_repository,
        ) + told_line("Current time"@, env.current_time)) + (if env.project_rules.len() == 0 {
            Seq::empty()
        } else {
            "\n## Project rules\n\nThe user has configured the following rules for this project. \
         Follow them:\n"@ + rules_told(env.project_rules)
        }),
{
    rule_lines_are_told(env.project_rules, env.project_rules.len());
    assert(env.project_rules.take(env.project_rules.len() as int) =~= env.project_rules);
    seven_lines(env);
}

/// Where a request has no context, the prompt tells nothing of the environment.
pub proof fn prompt_without_context(instructions: Seq<char>)
    ensures
        prompt::prompt_text(instructions, plan::environment_of(None)) == instructions
            + "\n\n## Environment\n"@,
{
    let env = plan::environment_of(None);
    seven_lines(env);
    assert(prompt::prompt_text(instructions, env) =~= instructions + "\n\n## Environment\n"@);
}

} // verus!
