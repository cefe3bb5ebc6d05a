//! Predicting the next shell command: the question to a model, the reading of its
//! reply, and the choice of the endpoint to ask.

use vstd::prelude::*;

use crate::api::context::{Opaque, OpaqueView};
use crate::model::{ChatMessage, ChatMessageView, LocalEndpointConfig, LocalEndpointConfigView};
use crate::text;

verus! {

/// What is known when a command is to be predicted.
#[derive(Debug, PartialEq, Default)]
pub struct GenerateAIInputSuggestionsRequest {
    pub context_messages: Vec<String>,
    pub history_context: String,
    pub system_context: Option<String>,
    pub rejected_suggestions: Vec<String>,
    /// What the user already typed.
    pub prefix: Option<String>,
    pub block_context: Option<Opaque>,
    pub previous_result: Option<Opaque>,
}

#[verifier::ext_equal]
pub struct GenerateAIInputSuggestionsRequestView {
    pub context_messages: Seq<Seq<char>>,
    pub history_context: Seq<char>,
    pub system_context: Option<Seq<char>>,
    pub rejected_suggestions: Seq<Seq<char>>,
    pub prefix: Option<Seq<char>>,
    pub block_context: Option<OpaqueView>,
    pub previous_result: Option<OpaqueView>,
}

impl DeepView for GenerateAIInputSuggestionsRequest {
    type V = GenerateAIInputSuggestionsRequestView;

    open spec fn deep_view(&self) -> GenerateAIInputSuggestionsRequestView {
        GenerateAIInputSuggestionsRequestView {
            context_messages: self.context_messages.deep_view(),
            history_context: self.history_context@,
            system_context: self.system_context.deep_view(),
            rejected_suggestions: self.rejected_suggestions.deep_view(),
            prefix: self.prefix.deep_view(),
            block_context: self.block_context.deep_view(),
            previous_result: self.previous_result.deep_view(),
        }
    }
}

impl Clone for GenerateAIInputSuggestionsRequest {
    fn clone(&self) -> (copy: Self)
        ensures
            copy.deep_view() == self.deep_view(),
    {
        let copy = GenerateAIInputSuggestionsRequest {
            context_messages: self.context_messages.clone(),
            history_context: self.history_context.clone(),
            system_context: self.system_context.clone(),
            rejected_suggestions: self.rejected_suggestions.clone(),
            prefix: self.prefix.clone(),
            block_context: self.block_context.clone(),
            previous_result: self.previous_result.clone(),
        };
        assert(copy.context_messages.deep_view() =~= self.context_messages.deep_view());
        assert(copy.rejected_suggestions.deep_view() =~= self.rejected_suggestions.deep_view());
        copy
    }
}

/// The commands that are suggested, and the likeliest of them.
#[derive(Debug, PartialEq, Default)]
pub struct GenerateAIInputSuggestionsResponse {
    pub commands: Vec<String>,
    pub most_likely_action: String,
}

#[verifier::ext_equal]
pub struct GenerateAIInputSuggestionsResponseView {
    pub commands: Seq<Seq<char>>,
    pub most_likely_action: Seq<char>,
}

impl DeepView for GenerateAIInputSuggestionsResponse {
    type V = GenerateAIInputSuggestionsResponseView;

    open spec fn deep_view(&self) -> GenerateAIInputSuggestionsResponseView {
        GenerateAIInputSuggestionsResponseView {
            commands: self.commands.deep_view(),
            most_likely_action: self.most_likely_action@,
        }
    }
}

impl Clone for GenerateAIInputSuggestionsResponse {
    fn clone(&self) -> (copy: Self)
        ensures
            copy.deep_view() == self.deep_view(),
    {
        let copy = GenerateAIInputSuggestionsResponse {
            commands: self.commands.clone(),
            most_likely_action: self.most_likely_action.clone(),
        };
        assert(copy.commands.deep_view() =~= self.commands.deep_view());
        copy
    }
}

/// A model of an endpoint.
#[derive(Debug, PartialEq, Default)]
pub struct CustomEndpointModel {
    /// Model name as the provider knows it.
    pub name: String,
    pub alias: Option<String>,
    pub config_key: String,
}

#[verifier::ext_equal]
pub struct CustomEndpointModelView {
    pub name: Seq<char>,
    pub alias: Option<Seq<char>>,
    pub config_key: Seq<char>,
}

impl DeepView for CustomEndpointModel {
    type V = CustomEndpointModelView;

    open spec fn deep_view(&self) -> CustomEndpointModelView {
        CustomEndpointModelView {
            name: self.name@,
            alias: self.alias.deep_view(),
            config_key: self.config_key@,
        }
    }
}

impl Clone for CustomEndpointModel {
    fn clone(&self) -> (copy: Self)
        ensures
            copy.deep_view() == self.deep_view(),
    {
        CustomEndpointModel {
            name: self.name.clone(),
            alias: self.alias.clone(),
            config_key: self.config_key.clone(),
        }
    }
}

/// An endpoint that the user configured.
#[derive(Debug, PartialEq, Default)]
pub struct CustomEndpoint {
    pub name: String,
    pub url: String,
    pub api_key: String,
    pub models: Vec<CustomEndpointModel>,
}

#[verifier::ext_equal]
pub struct CustomEndpointView {
    pub name: Seq<char>,
    pub url: Seq<char>,
    pub api_key: Seq<char>,
    pub models: Seq<CustomEndpointModelView>,
}

impl DeepView for CustomEndpoint {
    type V = CustomEndpointView;

    open spec fn deep_view(&self) -> CustomEndpointView {
        CustomEndpointView {
            name: self.name@,
            url: self.url@,
            api_key: self.api_key@,
            models: self.models.deep_view(),
        }
    }
}

impl Clone for CustomEndpoint {
    fn clone(&self) -> (copy: Self)
        ensures
            copy.deep_view() == self.deep_view(),
    {
        let copy = CustomEndpoint {
            name: self.name.clone(),
            url: self.url.clone(),
            api_key: self.api_key.clone(),
            models: self.models.clone(),
        };
        assert(copy.models.deep_view() =~= self.models.deep_view());
        copy
    }
}

/// The instructions for predicting a command.
pub const PREDICTION_INSTRUCTIONS: &'static str = "\
You predict the next shell command a user will run in their terminal. \
Reply with exactly one command on a single line and nothing else: \
no explanation, no code fences, no quotes.";

/// A titled part of a message; nothing where it has no content.
pub open spec fn section(title: Seq<char>, body: Seq<char>) -> Seq<char> {
    if body.len() == 0 {
        Seq::empty()
    } else {
        title + "\n"@ + body + "\n\n"@
    }
}

/// The content of an optional text.
pub open spec fn or_empty(value: Option<Seq<char>>) -> Seq<char> {
    match value {
        Some(content) => content,
        None => Seq::empty(),
    }
}

/// The system message of a prediction.
pub open spec fn prediction_prompt(request: GenerateAIInputSuggestionsRequestView) -> Seq<char> {
    PREDICTION_INSTRUCTIONS@ + "\n\n"@ + section(
        "System context:"@,
        or_empty(request.system_context),
    )
}

/// The user message of a prediction: what happened lately, what is not to be offered again, and
/// what is already typed.
pub open spec fn prediction_query(request: GenerateAIInputSuggestionsRequestView) -> Seq<char> {
    section("Recent terminal blocks:"@, text::join(request.context_messages, "\n"@)) + section(
        "Command history:"@,
        request.history_context,
    ) + section(
        "Suggestions the user rejected (do not repeat them):"@,
        text::join(request.rejected_suggestions, "\n"@),
    ) + section(
        "The user has already typed this; the command must begin with it:"@,
        or_empty(request.prefix),
    ) + "What is the next shell command?"@
}

fn make_section(title: &str, body: &str) -> (part: String)
    ensures
        part@ == section(title@, body@),
{
    if text::is_empty_text(body) {
        return String::new();
    }
    let mut part = title.to_string();
    part.append("\n");
    part.append(body);
    part.append("\n\n");
    part
}

fn content_of(value: &Option<String>) -> (content: String)
    ensures
        content@ == or_empty(value.deep_view()),
{
    match value {
        Some(content) => content.clone(),
        None => String::new(),
    }
}

/// The transcript that asks a model for the next command: the system message, then the user
/// message.
pub fn build_suggestion_transcript(request: &GenerateAIInputSuggestionsRequest) -> (transcript: Vec<
    ChatMessage,
>)
    ensures
        transcript.deep_view() == seq![
            ChatMessageView::System(prediction_prompt(request.deep_view())),
            ChatMessageView::User(prediction_query(request.deep_view())),
        ],
{
    let mut system = PREDICTION_INSTRUCTIONS.to_string();
    system.append("\n\n");
    system.append(
        make_section("System context:", content_of(&request.system_context).as_str()).as_str(),
    );
    let mut user = make_section(
        "Recent terminal blocks:",
        text::joined(&request.context_messages, "\n").as_str(),
    );
    user.append(make_section("Command history:", request.history_context.as_str()).as_str());
    user.append(
        make_section(
            "Suggestions the user rejected (do not repeat them):",
            text::joined(&request.rejected_suggestions, "\n").as_str(),
        ).as_str(),
    );
    user.append(
        make_section(
            "The user has already typed this; the command must begin with it:",
            content_of(&request.prefix).as_str(),
        ).as_str(),
    );
    user.append("What is the next shell command?");
    let transcript: Vec<ChatMessage> = vec![ChatMessage::System(system), ChatMessage::User(user)];
    assert(transcript.deep_view() =~= seq![
        ChatMessageView::System(prediction_prompt(request.deep_view())),
        ChatMessageView::User(prediction_query(request.deep_view())),
    ]);
    transcript
}

proof fn body_in_section(title: Seq<char>, body: Seq<char>)
    requires
        body.len() > 0,
    ensures
        text::occurs_in(section(title, body), body),
{
    text::part_of_middle(title + "\n"@, body, "\n\n"@);
}

/// A model is told five parts of the request: the system context, the recent terminal blocks, the
/// command history, the rejected suggestions and what is already typed.
pub proof fn prediction_tells_request(request: GenerateAIInputSuggestionsRequestView)
    ensures
        or_empty(request.system_context).len() > 0 ==> text::occurs_in(
            prediction_prompt(request),
            or_empty(request.system_context),
        ),
        request.history_context.len() > 0 ==> text::occurs_in(
            prediction_query(request),
            request.history_context,
        ),
        or_empty(request.prefix).len() > 0 ==> text::occurs_in(
            prediction_query(request),
            or_empty(request.prefix),
        ),
        text::join(request.context_messages, "\n"@).len() > 0 ==> text::occurs_in(
            prediction_query(request),
            text::join(request.context_messages, "\n"@),
        ),
        text::join(request.rejected_suggestions, "\n"@).len() > 0 ==> text::occurs_in(
            prediction_query(request),
            text::join(request.rejected_suggestions, "\n"@),
        ),
{
    let query = prediction_query(request);
    let recent = section(
        "Recent terminal blocks:"@,
        text::join(request.context_messages, "\n"@),
    );
    let history = section("Command history:"@, request.history_context);
    let rejected = section(
        "Suggestions the user rejected (do not repeat them):"@,
        text::join(request.rejected_suggestions, "\n"@),
    );
    let typed = section(
        "The user has already typed this; the command must begin with it:"@,
        or_empty(request.prefix),
    );
    let question = "What is the next shell command?"@;
    let none = Seq::<char>::empty();
    if or_empty(request.system_context).len() > 0 {
        let part = section("System context:"@, or_empty(request.system_context));
        body_in_section("System context:"@, or_empty(request.system_context));
        text::part_of_middle(PREDICTION_INSTRUCTIONS@ + "\n\n"@, part, none);
        assert(PREDICTION_INSTRUCTIONS@ + "\n\n"@ + part + none =~= prediction_prompt(request));
        text::part_of_part(prediction_prompt(request), part, or_empty(request.system_context));
    }
    if request.history_context.len() > 0 {
        body_in_section("Command history:"@, request.history_context);
        text::part_of_middle(recent, history, rejected + typed + question);
        assert(recent + history + (rejected + typed + question) =~= query);
        text::part_of_part(query, history, request.history_context);
    }
    if or_empty(request.prefix).len() > 0 {
        body_in_section(
            "The user has already typed this; the command must begin with it:"@,
            or_empty(request.prefix),
        );
        text::part_of_middle(recent + history + rejected, typed, question);
        text::part_of_part(query, typed, or_empty(request.prefix));
    }
    if text::join(request.context_messages, "\n"@).len() > 0 {
        body_in_section(
            "Recent terminal blocks:"@,
            text::join(request.context_messages, "\n"@),
        );
        text::part_of_middle(none, recent, history + rejected + typed + question);
        assert(none + recent + (history + rejected + typed + question) =~= query);
        text::part_of_part(query, recent, text::join(request.context_messages, "\n"@));
    }
    if text::join(request.rejected_suggestions, "\n"@).len() > 0 {
        body_in_section(
            "Suggestions the user rejected (do not repeat them):"@,
            text::join(request.rejected_suggestions, "\n"@),
        );
        text::part_of_middle(recent + history, rejected, typed + question);
        assert(recent + history + rejected + (typed + question) =~= query);
        text::part_of_part(query, rejected, text::join(request.rejected_suggestions, "\n"@));
    }
}

/// The line that the first `count` characters of a text end in the middle of.
pub open spec fn open_line(content: Seq<char>, count: nat) -> Seq<char>
    decreases count,
{
    if count == 0 || content[count - 1] == '\n' {
        Seq::empty()
    } else {
        open_line(content, (count - 1) as nat).push(content[count - 1])
    }
}

/// The lines that are complete within the first `count` characters of a text.
pub open spec fn complete_lines(content: Seq<char>, count: nat) -> Seq<Seq<char>>
    decreases count,
{
    if count == 0 {
        Seq::empty()
    } else {
        let before = complete_lines(content, (count - 1) as nat);
        if content[count - 1] == '\n' {
            before.push(open_line(content, (count - 1) as nat))
        } else {
            before
        }
    }
}

/// The lines of a text.
pub open spec fn lines(content: Seq<char>) -> Seq<Seq<char>> {
    complete_lines(content, content.len()).push(open_line(content, content.len()))
}

fn split_lines(content: &str) -> (result: Vec<String>)
    ensures
        result.deep_view() == lines(content@),
{
    let chars = text::chars_of(content);
    let mut result: Vec<String> = Vec::new();
    let mut line = String::new();
    assert(result.deep_view() =~= Seq::empty());
    for i in 0..chars.len()
        invariant
            chars@ == content@,
            result.deep_view() == complete_lines(content@, i as nat),
            line@ == open_line(content@, i as nat),
    {
        let c: char = chars[i];
        if c == '\n' {
            let ghost before = result.deep_view();
            result.push(line);
            assert(result.deep_view() =~= before.push(open_line(content@, i as nat)));
            line = String::new();
            assert(line@ =~= open_line(content@, (i + 1) as nat));
        } else {
            line.push(c);
        }
    }
    let ghost before = result.deep_view();
    result.push(line);
    assert(result.deep_view() =~= lines(content@));
    result
}

/// A text without the backticks at its two ends, and without white space outside and inside of
/// them.
pub open spec fn unquoted(line: Seq<char>) -> Seq<char> {
    text::trim(text::trim_end_mark(text::trim_start_mark(text::trim(line), '`'), '`'))
}

/// Whether a line opens or closes a code fence and holds no command itself.
pub open spec fn fence(line: Seq<char>) -> bool {
    text::starts_with(text::trim(line), "```"@) && !text::ends_with(text::trim(line), "```"@)
}

/// The command that a line of a model's reply gives, where it gives one.
pub open spec fn command_in(line: Seq<char>) -> Option<Seq<char>> {
    if fence(line) || unquoted(line).len() == 0 {
        None
    } else {
        Some(unquoted(line))
    }
}

/// The first command among the first `count` lines.
pub open spec fn first_command(lines: Seq<Seq<char>>, count: nat) -> Option<Seq<char>>
    decreases count,
{
    if count == 0 {
        None
    } else {
        match first_command(lines, (count - 1) as nat) {
            Some(command) => Some(command),
            None => command_in(lines[count - 1]),
        }
    }
}

/// The command that a model's reply suggests: the first that it gives, as long as it extends what
/// the user already typed.
pub open spec fn suggested_command(reply: Seq<char>, prefix: Option<Seq<char>>) -> Option<Seq<char>> {
    match first_command(lines(reply), lines(reply).len()) {
        Some(command) => if prefix matches Some(typed) && !text::starts_with(command, typed) {
            None
        } else {
            Some(command)
        },
        None => None,
    }
}

/// The response for a command, or for none.
pub open spec fn response_for(command: Option<Seq<char>>) -> GenerateAIInputSuggestionsResponseView {
    match command {
        Some(command) => GenerateAIInputSuggestionsResponseView {
            commands: seq![command],
            most_likely_action: command,
        },
        None => GenerateAIInputSuggestionsResponseView {
            commands: Seq::empty(),
            most_likely_action: Seq::empty(),
        },
    }
}

fn find_command(line: &str) -> (command: Option<String>)
    ensures
        command.deep_view() == command_in(line@),
{
    let trimmed = text::trimmed(line);
    if text::text_starts_with(trimmed.as_str(), "```") && !text::text_ends_with(
        trimmed.as_str(),
        "```",
    ) {
        return None;
    }
    let opened = text::trimmed_start_mark(trimmed.as_str(), '`');
    let bare = text::trimmed_end_mark(opened.as_str(), '`');
    let command = text::trimmed(bare.as_str());
    if text::is_empty_text(command.as_str()) {
        None
    } else {
        Some(command)
    }
}

/// Reads the command that a model suggests out of its reply. Code fences and backticks are taken
/// off, and a command that does not extend what the user already typed is dropped.
pub fn parse_command_suggestion(reply: &str, prefix: Option<&str>) -> (response:
    GenerateAIInputSuggestionsResponse)
    ensures
        response.deep_view() == response_for(
            suggested_command(
                reply@,
                match prefix {
                    Some(typed) => Some(typed@),
                    None => None,
                },
            ),
        ),
{
    let all_lines = split_lines(reply);
    let mut command: Option<String> = None;
    for i in 0..all_lines.len()
        invariant
            command.deep_view() == first_command(all_lines.deep_view(), i as nat),
    {
        assert(all_lines.deep_view()[i as int] == all_lines@[i as int]@);
        if command.is_none() {
            command = find_command(all_lines[i].as_str());
        }
    }
    if let Some(found) = command {
        let kept = match prefix {
            Some(typed) => text::text_starts_with(found.as_str(), typed),
            None => true,
        };
        if kept {
            let response = GenerateAIInputSuggestionsResponse {
                commands: vec![found.clone()],
                most_likely_action: found,
            };
            assert(response.commands.deep_view() =~= seq![found@]);
            return response;
        }
    }
    let response = GenerateAIInputSuggestionsResponse {
        commands: Vec::new(),
        most_likely_action: String::new(),
    };
    assert(response.commands.deep_view() =~= Seq::empty());
    assert(response.most_likely_action@ =~= Seq::empty());
    response
}

proof fn first_command_is_a_line(lines: Seq<Seq<char>>, count: nat)
    requires
        count <= lines.len(),
        first_command(lines, count) is Some,
    ensures
        exists|i: int|
            0 <= i < count && command_in(#[trigger] lines[i]) == first_command(lines, count) && forall|
                k: int,
            |
                0 <= k < i ==> command_in(#[trigger] lines[k]) is None,
    decreases count,
{
    if first_command(lines, (count - 1) as nat) is Some {
        first_command_is_a_line(lines, (count - 1) as nat);
        let i = choose|i: int|
            0 <= i < count - 1 && command_in(#[trigger] lines[i]) == first_command(
                lines,
                (count - 1) as nat,
            ) && forall|k: int| 0 <= k < i ==> command_in(#[trigger] lines[k]) is None;
        assert(command_in(lines[i]) == first_command(lines, count));
    } else {
        no_command_before(lines, (count - 1) as nat);
        assert(command_in(lines[count - 1]) == first_command(lines, count));
    }
}

proof fn no_command_before(lines: Seq<Seq<char>>, count: nat)
    requires
        count <= lines.len(),
        first_command(lines, count) is None,
    ensures
        forall|k: int| 0 <= k < count ==> command_in(#[trigger] lines[k]) is None,
    decreases count,
{
    if count > 0 {
        no_command_before(lines, (count - 1) as nat);
    }
}

/// A suggestion is a command of the first line of the reply that gives one, is never empty, and
/// extends what the user already typed.
pub proof fn suggestion_is_usable(reply: Seq<char>, prefix: Option<Seq<char>>)
    requires
        suggested_command(reply, prefix) is Some,
    ensures
        ({
            let command = suggested_command(reply, prefix)->0;
            &&& command.len() > 0
            &&& prefix matches Some(typed) ==> text::starts_with(command, typed)
            &&& exists|i: int|
                0 <= i < lines(reply).len() && command_in(#[trigger] lines(reply)[i]) == Some(
                    command,
                ) && forall|k: int| 0 <= k < i ==> command_in(#[trigger] lines(reply)[k]) is None
        }),
{
    first_command_is_a_line(lines(reply), lines(reply).len());
}

/// Whether an endpoint is configured far enough to be called.
pub open spec fn usable(endpoint: CustomEndpointView) -> bool {
    text::trim(endpoint.url).len() > 0 && text::trim(endpoint.api_key).len() > 0
}

/// The position among the first `count` models of the one with a config key.
pub open spec fn endpoint_model(
    models: Seq<CustomEndpointModelView>,
    config_key: Seq<char>,
    count: nat,
) -> Option<int>
    decreases count,
{
    if count == 0 {
        None
    } else {
        match endpoint_model(models, config_key, (count - 1) as nat) {
            Some(at) => Some(at),
            None => if models[count - 1].config_key == config_key {
                Some(count - 1)
            } else {
                None
            },
        }
    }
}

/// How to reach the model with a config key at an endpoint.
pub open spec fn reach(endpoint: CustomEndpointView, config_key: Seq<char>) -> Option<
    LocalEndpointConfigView,
> {
    match endpoint_model(endpoint.models, config_key, endpoint.models.len()) {
        Some(at) => if usable(endpoint) {
            Some(
                LocalEndpointConfigView {
                    base_url: endpoint.url,
                    api_key: endpoint.api_key,
                    model_slug: endpoint.models[at].name,
                },
            )
        } else {
            None
        },
        None => None,
    }
}

/// How to reach the model with a config key at the first of the first `count` endpoints that has
/// it.
pub open spec fn first_reach(
    endpoints: Seq<CustomEndpointView>,
    config_key: Seq<char>,
    count: nat,
) -> Option<LocalEndpointConfigView>
    decreases count,
{
    if count == 0 {
        None
    } else {
        match first_reach(endpoints, config_key, (count - 1) as nat) {
            Some(config) => Some(config),
            None => reach(endpoints[count - 1], config_key),
        }
    }
}

fn find_reach(endpoint: &CustomEndpoint, config_key: &str) -> (config: Option<LocalEndpointConfig>)
    ensures
        config.deep_view() == reach(endpoint.deep_view(), config_key@),
{
    let mut found: Option<usize> = None;
    for i in 0..endpoint.models.len()
        invariant
            match found {
                Some(at) => at < i && endpoint_model(
                    endpoint.models.deep_view(),
                    config_key@,
                    i as nat,
                ) == Some(at as int),
                None => endpoint_model(endpoint.models.deep_view(), config_key@, i as nat) is None,
            },
    {
        assert(endpoint.models.deep_view()[i as int] == endpoint.models@[i as int].deep_view());
        if found.is_none() && text::same_text(endpoint.models[i].config_key.as_str(), config_key) {
            found = Some(i);
        }
    }
    match found {
        Some(at) => {
            assert(endpoint.models.deep_view()[at as int] == endpoint.models@[at as int].deep_view());
            let has_url = !text::is_empty_text(text::trimmed(endpoint.url.as_str()).as_str());
            let has_key = !text::is_empty_text(text::trimmed(endpoint.api_key.as_str()).as_str());
            if has_url && has_key {
                Some(
                    LocalEndpointConfig {
                        base_url: endpoint.url.clone(),
                        api_key: endpoint.api_key.clone(),
                        model_slug: endpoint.models[at].name.clone(),
                    },
                )
            } else {
                None
            }
        },
        None => None,
    }
}

/// How to reach the model with a config key, where one of the endpoints has it. An endpoint
/// without a URL or a key is passed over.
pub fn pick_custom_endpoint(config_key: &str, endpoints: &[CustomEndpoint]) -> (config: Option<
    LocalEndpointConfig,
>)
    ensures
        config.deep_view() == first_reach(endpoints.deep_view(), config_key@, endpoints@.len()),
{
    let mut config: Option<LocalEndpointConfig> = None;
    for i in 0..endpoints.len()
        invariant
            config.deep_view() == first_reach(endpoints.deep_view(), config_key@, i as nat),
    {
        assert(endpoints.deep_view()[i as int] == endpoints@[i as int].deep_view());
        if config.is_none() {
            config = find_reach(&endpoints[i], config_key);
        }
    }
    config
}

/// Whether a message tells of something under a title, where there is something to tell.
pub open spec fn tells_under(message: Seq<char>, title: Seq<char>, body: Seq<char>) -> bool {
    body.len() > 0 ==> text::occurs_in(message, title + "\n"@ + body + "\n\n"@)
}

/// Whether a message tells of texts under a title, each on lines of its own and in order.
pub open spec fn lists_under(message: Seq<char>, title: Seq<char>, items: Seq<Seq<char>>) -> bool {
    exists|body: Seq<char>|
        text::laid_out(body, items, "\n"@) && #[trigger] tells_under(message, title, body)
}

/// The question to the model tells of each thing that is known under its own title, of every
/// terminal block and of every rejected suggestion, and asks for the next command at the end. The
/// system message starts with the instructions and tells of the system context.
pub proof fn prediction_tells_under_titles(request: GenerateAIInputSuggestionsRequestView)
    ensures
        lists_under(
            prediction_query(request),
            "Recent terminal blocks:"@,
            request.context_messages,
        ),
        tells_under(prediction_query(request), "Command history:"@, request.history_context),
        lists_under(
            prediction_query(request),
            "Suggestions the user rejected (do not repeat them):"@,
            request.rejected_suggestions,
        ),
        request.prefix matches Some(typed) ==> tells_under(
            prediction_query(request),
            "The user has already typed this; the command must begin with it:"@,
            typed,
        ),
        text::ends_with(prediction_query(request), "What is the next shell command?"@),
        text::starts_with(prediction_prompt(request), PREDICTION_INSTRUCTIONS@),
        request.system_context matches Some(known) ==> tells_under(
            prediction_prompt(request),
            "System context:"@,
            known,
        ),
{
    let query = prediction_query(request);
    let blocks = text::join(request.context_messages, "\n"@);
    let refused = text::join(request.rejected_suggestions, "\n"@);
    let recent = section("Recent terminal blocks:"@, blocks);
    let history = section("Command history:"@, request.history_context);
    let rejected = section("Suggestions the user rejected (do not repeat them):"@, refused);
    let typed = section(
        "The user has already typed this; the command must begin with it:"@,
        or_empty(request.prefix),
    );
    let question = "What is the next shell command?"@;
    let none = Seq::<char>::empty();
    text::join_lays_out(request.context_messages, "\n"@);
    text::join_lays_out(request.rejected_suggestions, "\n"@);
    text::part_of_middle(none, recent, history + rejected + typed + question);
    assert(none + recent + (history + rejected + typed + question) =~= query);
    assert(tells_under(query, "Recent terminal blocks:"@, blocks));
    text::part_of_middle(recent, history, rejected + typed + question);
    assert(recent + history + (rejected + typed + question) =~= query);
    text::part_of_middle(recent + history, rejected, typed + question);
    assert(recent + history + rejected + (typed + question) =~= query);
    assert(tells_under(query, "Suggestions the user rejected (do not repeat them):"@, refused));
    text::part_of_middle(recent + history + rejected, typed, question);
    assert(query.subrange(query.len() - question.len(), query.len() as int) =~= question);
    let prompt = prediction_prompt(request);
    let known = section("System context:"@, or_empty(request.system_context));
    assert(prompt.subrange(0, PREDICTION_INSTRUCTIONS@.len() as int) =~= PREDICTION_INSTRUCTIONS@);
    text::part_of_middle(PREDICTION_INSTRUCTIONS@ + "\n\n"@, known, none);
    assert(PREDICTION_INSTRUCTIONS@ + "\n\n"@ + known + none =~= prompt);
}

/// Where nothing is known, the model is told nothing.
pub proof fn prediction_without_context(request: GenerateAIInputSuggestionsRequestView)
    requires
        request.context_messages.len() == 0,
        request.history_context.len() == 0,
        request.rejected_suggestions.len() == 0,
        request.prefix is None,
        request.system_context is None,
    ensures
        prediction_query(request) == "What is the next shell command?"@,
        prediction_prompt(request) == PREDICTION_INSTRUCTIONS@ + "\n\n"@,
{
    text::join_lays_out(request.context_messages, "\n"@);
    text::join_lays_out(request.rejected_suggestions, "\n"@);
    assert(prediction_query(request) =~= "What is the next shell command?"@);
    assert(prediction_prompt(request) =~= PREDICTION_INSTRUCTIONS@ + "\n\n"@);
}

/// Whether a text is on one line.
pub open spec fn one_line(line: Seq<char>) -> bool {
    forall|i: int| 0 <= i < line.len() ==> #[trigger] line[i] != '\n'
}

proof fn lines_join_up(content: Seq<char>, count: nat)
    requires
        count <= content.len(),
    ensures
        text::join(
            complete_lines(content, count).push(open_line(content, count)),
            seq!['\n'],
        ) == content.take(count as int),
        forall|i: int|
            0 <= i < complete_lines(content, count).len() ==> one_line(
                #[trigger] complete_lines(content, count)[i],
            ),
        one_line(open_line(content, count)),
    decreases count,
{
    let before = complete_lines(content, count);
    let last = open_line(content, count);
    let mark = seq!['\n'];
    if count == 0 {
        assert(before.push(last).len() == 1);
        reveal_with_fuel(text::join_first, 2);
        assert(text::join(before.push(last), mark) =~= content.take(0));
    } else {
        let less = (count - 1) as nat;
        lines_join_up(content, less);
        let c = content[count - 1];
        let earlier = complete_lines(content, less);
        let line = open_line(content, less);
        assert(content.take(count as int) =~= content.take(less as int).push(c));
        if c == '\n' {
            assert(before == earlier.push(line));
            text::join_push(before, last, mark);
            assert(text::join(before.push(last), mark) =~= content.take(count as int));
        } else {
            assert(before == earlier);
            assert(last == line.push(c));
            if earlier.len() == 0 {
                reveal_with_fuel(text::join_first, 2);
                assert(earlier.push(line)[0] == line);
                assert(earlier.push(last)[0] == last);
                assert(text::join(earlier.push(line), mark) =~= line);
                assert(text::join(earlier.push(last), mark) =~= last);
            } else {
                text::join_push(earlier, line, mark);
                text::join_push(earlier, last, mark);
            }
            assert(text::join(before.push(last), mark) =~= content.take(count as int));
        }
    }
}

/// The lines of a text hold no line feed, and are the text again with one between each two.
pub proof fn lines_make_up_text(content: Seq<char>)
    ensures
        lines(content).len() > 0,
        forall|i: int| 0 <= i < lines(content).len() ==> one_line(#[trigger] lines(content)[i]),
        text::laid_out(content, lines(content), seq!['\n']),
{
    lines_join_up(content, content.len());
    assert(content.take(content.len() as int) =~= content);
    text::join_lays_out(lines(content), seq!['\n']);
}

/// Whether a text holds nothing but backticks.
pub open spec fn ticks(marks: Seq<char>) -> bool {
    forall|i: int| 0 <= i < marks.len() ==> #[trigger] marks[i] == '`'
}

/// Whether a text begins and ends with something other than white space.
pub open spec fn tight(content: Seq<char>) -> bool {
    content.len() > 0 && !text::white_space(content[0]) && !text::white_space(content.last())
}

proof fn trim_gives_middle(before: Seq<char>, middle: Seq<char>, after: Seq<char>)
    requires
        text::blank(before),
        text::blank(after),
        tight(middle),
    ensures
        text::trim(before + middle + after) == middle,
{
    let whole = before + middle + after;
    let kept = text::trim(whole);
    text::trim_cuts_white_space(whole);
    let from = choose|from: int|
        0 <= from && from + kept.len() <= whole.len() && kept == #[trigger] whole.subrange(
            from,
            from + kept.len(),
        ) && text::blank(whole.subrange(0, from)) && text::blank(
            whole.subrange(from + kept.len(), whole.len() as int),
        );
    let first = before.len() as int;
    let last = before.len() + middle.len() - 1;
    let to = from + kept.len();
    assert(whole[first] == middle[0]);
    assert(whole[last] == middle.last());
    if from > first {
        assert(whole.subrange(0, from)[first] == middle[0]);
    }
    if to <= last {
        assert(whole.subrange(to, whole.len() as int)[last - to] == middle.last());
    }
    if from < first {
        assert(kept[0] == before[from]);
    }
    if to > last + 1 {
        assert(kept.last() == whole[to - 1]);
        assert(whole[to - 1] == after[to - 2 - last]);
    }
    assert(kept =~= middle);
}

proof fn trim_of_blank(content: Seq<char>)
    requires
        text::blank(content),
    ensures
        text::trim(content).len() == 0,
{
    text::trim_cuts_white_space(content);
    let kept = text::trim(content);
    if kept.len() > 0 {
        let from = choose|from: int|
            0 <= from && from + kept.len() <= content.len() && kept == #[trigger] content.subrange(
                from,
                from + kept.len(),
            ) && text::blank(content.subrange(0, from)) && text::blank(
                content.subrange(from + kept.len(), content.len() as int),
            );
        assert(kept[0] == content[from]);
    }
}

proof fn ticks_come_off(left: Seq<char>, command: Seq<char>, right: Seq<char>)
    requires
        ticks(left),
        ticks(right),
        command.len() > 0,
        command[0] != '`',
        command.last() != '`',
    ensures
        text::trim_end_mark(text::trim_start_mark(left + command + right, '`'), '`') == command,
{
    let whole = left + command + right;
    let middle = text::trim_start_mark(whole, '`');
    text::trim_start_mark_cuts(whole, '`');
    let cut = whole.len() - middle.len();
    assert(whole[left.len() as int] == command[0]);
    if cut < left.len() {
        assert(middle[0] == whole[cut]);
        assert(whole[cut] == left[cut]);
    }
    assert(middle =~= command + right);
    let kept = text::trim_end_mark(middle, '`');
    text::trim_end_mark_cuts(middle, '`');
    assert(middle[command.len() - 1] == command.last());
    if kept.len() > command.len() {
        assert(kept.last() == middle[kept.len() - 1]);
        assert(middle[kept.len() - 1] == right[kept.len() - 1 - command.len()]);
    }
    assert(kept =~= command);
}

/// A line gives the command that stands on it, without the white space and the backticks around it.
/// It gives none where it opens a code fence: three backticks before, and fewer behind.
pub proof fn line_gives_its_command(
    before: Seq<char>,
    left: Seq<char>,
    command: Seq<char>,
    right: Seq<char>,
    after: Seq<char>,
)
    requires
        text::blank(before),
        text::blank(after),
        ticks(left),
        ticks(right),
        tight(command),
        command[0] != '`',
        command.last() != '`',
    ensures
        command_in(before + (left + command + right) + after) == if left.len() >= 3 && right.len()
            < 3 {
            None
        } else {
            Some(command)
        },
{
    let line = before + (left + command + right) + after;
    let middle = left + command + right;
    assert(middle[0] == if left.len() > 0 {
        left[0]
    } else {
        command[0]
    });
    assert(middle.last() == if right.len() > 0 {
        right[right.len() - 1]
    } else {
        command.last()
    });
    trim_gives_middle(before, middle, after);
    ticks_come_off(left, command, right);
    trim_gives_middle(Seq::empty(), command, Seq::empty());
    assert(Seq::<char>::empty() + command + Seq::empty() =~= command);
    assert(unquoted(line) == command);
    let fence_mark = "```"@;
    reveal_strlit("```");
    assert(middle[left.len() as int] == command[0]);
    assert(middle[left.len() + command.len() - 1] == command.last());
    if left.len() >= 3 {
        assert(middle.subrange(0, 3) =~= fence_mark);
    } else if text::starts_with(middle, fence_mark) {
        assert(middle.subrange(0, 3)[left.len() as int] == command[0]);
    }
    let length = middle.len() as int;
    if right.len() >= 3 {
        assert(middle.subrange(length - 3, length) =~= fence_mark);
    } else if text::ends_with(middle, fence_mark) {
        assert(middle.subrange(length - 3, length)[2 - right.len()] == command.last());
    }
}

/// A line without anything but white space, or with backticks alone, gives no command.
pub proof fn empty_line_gives_none(before: Seq<char>, marks: Seq<char>, after: Seq<char>)
    requires
        text::blank(before),
        text::blank(after),
        ticks(marks),
    ensures
        command_in(before + marks + after) is None,
{
    let line = before + marks + after;
    if marks.len() == 0 {
        assert forall|i: int| 0 <= i < line.len() implies text::white_space(#[trigger] line[i]) by {
            if i < before.len() {
                assert(line[i] == before[i]);
            } else {
                assert(line[i] == after[i - before.len()]);
            }
        }
        trim_of_blank(line);
    } else {
        assert(marks.last() == marks[marks.len() - 1]);
        trim_gives_middle(before, marks, after);
    }
    let middle = text::trim(line);
    text::trim_start_mark_cuts(middle, '`');
    let rest = text::trim_start_mark(middle, '`');
    if rest.len() > 0 {
        assert(rest[0] == middle[middle.len() - rest.len()]);
    }
    text::trim_end_mark_cuts(rest, '`');
    trim_of_blank(text::trim_end_mark(rest, '`'));
}

proof fn first_command_stays(lines: Seq<Seq<char>>, at: int, count: nat)
    requires
        0 <= at < count <= lines.len(),
        command_in(lines[at]) is Some,
        forall|k: int| 0 <= k < at ==> command_in(#[trigger] lines[k]) is None,
    ensures
        first_command(lines, count) == command_in(lines[at]),
    decreases count,
{
    if at < count - 1 {
        first_command_stays(lines, at, (count - 1) as nat);
    } else if first_command(lines, at as nat) is Some {
        first_command_is_a_line(lines, at as nat);
    }
}

/// The first line of a reply that gives a command decides: its command is the one that is
/// suggested, where it begins with what is already typed, and nothing is suggested where it does
/// not. Where no line gives a command, nothing is suggested.
pub proof fn first_line_with_command_decides(reply: Seq<char>, prefix: Option<Seq<char>>, at: int)
    requires
        0 <= at <= lines(reply).len(),
        forall|k: int| 0 <= k < at ==> command_in(#[trigger] lines(reply)[k]) is None,
        at < lines(reply).len() ==> command_in(lines(reply)[at]) is Some,
    ensures
        suggested_command(reply, prefix) == (if at == lines(reply).len() {
            None
        } else {
            let command = command_in(lines(reply)[at])->0;
            if prefix is None || text::starts_with(command, prefix->0) {
                Some(command)
            } else {
                None
            }
        }),
{
    if at < lines(reply).len() {
        first_command_stays(lines(reply), at, lines(reply).len());
    } else if first_command(lines(reply), lines(reply).len()) is Some {
        first_command_is_a_line(lines(reply), lines(reply).len());
    }
}

/// The response offers the suggested command, once, and as the likely action; without one it offers
/// nothing.
pub proof fn response_offers_command(command: Option<Seq<char>>)
    ensures
        command matches Some(known) ==> response_for(command).commands == seq![known]
            && response_for(command).most_likely_action == known,
        command is None ==> response_for(command).commands.len() == 0 && response_for(
            command,
        ).most_likely_action.len() == 0,
{
}

/// Whether the model with a config key can be called at an endpoint, as the model at a position:
/// the first there with the key, with a URL and an API key that are not blank.
pub open spec fn serves(endpoint: CustomEndpointView, config_key: Seq<char>, at: int) -> bool {
    &&& 0 <= at < endpoint.models.len()
    &&& endpoint.models[at].config_key == config_key
    &&& forall|k: int| 0 <= k < at ==> (#[trigger] endpoint.models[k]).config_key != config_key
    &&& !text::blank(endpoint.url)
    &&& !text::blank(endpoint.api_key)
}

/// Whether a configuration reaches the model with a config key at the endpoint at a position, and
/// no earlier endpoint serves it.
pub open spec fn reaches_first(
    endpoints: Seq<CustomEndpointView>,
    config_key: Seq<char>,
    at: int,
    model: int,
    config: LocalEndpointConfigView,
) -> bool {
    &&& 0 <= at < endpoints.len()
    &&& serves(endpoints[at], config_key, model)
    &&& forall|k: int, m: int| 0 <= k < at ==> !#[trigger] serves(endpoints[k], config_key, m)
    &&& config.base_url == endpoints[at].url
    &&& config.api_key == endpoints[at].api_key
    &&& config.model_slug == endpoints[at].models[model].name
}

proof fn blank_or_not(content: Seq<char>)
    ensures
        text::trim(content).len() == 0 <==> text::blank(content),
{
    if text::blank(content) {
        trim_of_blank(content);
    } else if text::trim(content).len() == 0 {
        text::trim_cuts_white_space(content);
        let from = choose|from: int|
            0 <= from && from <= content.len() && text::trim(content) == #[trigger] content.subrange(
                from,
                from + text::trim(content).len(),
            ) && text::blank(content.subrange(0, from)) && text::blank(
                content.subrange(from + text::trim(content).len(), content.len() as int),
            );
        assert forall|i: int| 0 <= i < content.len() implies text::white_space(
            #[trigger] content[i],
        ) by {
            if i < from {
                assert(content.subrange(0, from)[i] == content[i]);
            } else {
                assert(content.subrange(from, content.len() as int)[i - from] == content[i]);
            }
        }
    }
}

proof fn endpoint_model_is_first(
    models: Seq<CustomEndpointModelView>,
    config_key: Seq<char>,
    count: nat,
)
    requires
        count <= models.len(),
    ensures
        match endpoint_model(models, config_key, count) {
            Some(at) => 0 <= at < count && models[at].config_key == config_key && forall|k: int|
                0 <= k < at ==> (#[trigger] models[k]).config_key != config_key,
            None => forall|k: int|
                0 <= k < count ==> (#[trigger] models[k]).config_key != config_key,
        },
    decreases count,
{
    if count > 0 {
        endpoint_model_is_first(models, config_key, (count - 1) as nat);
    }
}

proof fn reach_serves(endpoint: CustomEndpointView, config_key: Seq<char>)
    ensures
        match reach(endpoint, config_key) {
            Some(config) => exists|model: int|
                #[trigger] serves(endpoint, config_key, model) && config.base_url == endpoint.url
                    && config.api_key == endpoint.api_key && config.model_slug
                    == endpoint.models[model].name,
            None => forall|model: int| !#[trigger] serves(endpoint, config_key, model),
        },
{
    endpoint_model_is_first(endpoint.models, config_key, endpoint.models.len());
    blank_or_not(endpoint.url);
    blank_or_not(endpoint.api_key);
    if let Some(at) = endpoint_model(endpoint.models, config_key, endpoint.models.len()) {
        if usable(endpoint) {
            assert(serves(endpoint, config_key, at));
        }
    }
}

/// The endpoint that is picked for a config key is the first that serves it, with its URL, its API
/// key and the name of the model there. None is picked exactly where no endpoint serves it.
pub proof fn first_endpoint_is_picked(
    endpoints: Seq<CustomEndpointView>,
    config_key: Seq<char>,
    count: nat,
)
    requires
        count <= endpoints.len(),
    ensures
        match first_reach(endpoints, config_key, count) {
            Some(config) => exists|at: int, model: int|
                at < count && #[trigger] reaches_first(endpoints, config_key, at, model, config),
            None => forall|k: int, model: int|
                0 <= k < count ==> !#[trigger] serves(endpoints[k], config_key, model),
        },
    decreases count,
{
    if count > 0 {
        let less = (count - 1) as nat;
        first_endpoint_is_picked(endpoints, config_key, less);
        reach_serves(endpoints[count - 1], config_key);
        match first_reach(endpoints, config_key, less) {
            Some(config) => {
                let (at, model) = choose|at: int, model: int|
                    at < less && #[trigger] reaches_first(endpoints, config_key, at, model, config);
                assert(reaches_first(endpoints, config_key, at, model, config));
            },
            None => {
                if let Some(config) = reach(endpoints[count - 1], config_key) {
                    let endpoint = endpoints[count - 1];
                    let model = choose|model: int|
                        #[trigger] serves(endpoint, config_key, model) && config.base_url
                            == endpoint.url && config.api_key == endpoint.api_key
                            && config.model_slug == endpoint.models[model].name;
                    assert(reaches_first(endpoints, config_key, count - 1, model, config));
                }
            },
        }
    }
}

} // verus!
