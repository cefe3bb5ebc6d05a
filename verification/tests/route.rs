//! Which requests are served locally, and which are blocked.

use local_agent::api::context::{ExecutedShellCommand, Opaque};
use local_agent::api::message::{
    PassiveSuggestion, PassiveSuggestionResultType, PassiveSuggestionTrigger, SuggestedPrompt,
};
use local_agent::api::request::{
    CustomModel, CustomModelProvider, CustomModelProviders, GeneratePassiveSuggestions, Input,
    InputKind, Metadata, ModelConfig, PassiveSuggestionResultInput, Request, Settings, TaskContext,
    UserInput, UserInputKind, UserInputs, UserQueryInput,
};
use local_agent::route::{resolve_local_route, route_request, RequestDisposition};

fn custom_providers() -> CustomModelProviders {
    CustomModelProviders {
        providers: vec![CustomModelProvider {
            base_url: "https://llm.example.com/v1".to_string(),
            api_key: "sk-test".to_string(),
            models: vec![CustomModel {
                slug: "llama-3.3-70b".to_string(),
                config_key: "cfg-123".to_string(),
            }],
        }],
    }
}

fn user_query(query: &str) -> UserInput {
    UserInput {
        input: Some(UserInputKind::UserQuery(UserQueryInput {
            query: query.to_string(),
            ..Default::default()
        })),
    }
}

fn user_query_input() -> InputKind {
    InputKind::UserInputs(UserInputs { inputs: vec![user_query("hi")] })
}

fn request_for_model(
    model: &str,
    providers: Option<CustomModelProviders>,
    kind: InputKind,
) -> Request {
    Request {
        task_context: Some(TaskContext { tasks: vec![] }),
        input: Some(Input { context: None, kind: Some(kind) }),
        settings: Some(Settings {
            model_config: Some(ModelConfig { base: model.to_string(), ..Default::default() }),
            custom_model_providers: providers,
            ..Default::default()
        }),
        metadata: Some(Metadata::default()),
        mcp_context: None,
        ..Default::default()
    }
}

#[test]
fn routes_custom_endpoint_model_to_local_loop() {
    let request = request_for_model("cfg-123", Some(custom_providers()), user_query_input());

    let route = resolve_local_route(&request).expect("custom endpoint model should route locally");

    assert_eq!(route.endpoint.base_url, "https://llm.example.com/v1");
    assert_eq!(route.endpoint.api_key, "sk-test");
    assert_eq!(route.endpoint.model_slug, "llama-3.3-70b");
    assert_eq!(route.config_key, "cfg-123");
}

#[test]
fn does_not_route_models_without_a_custom_provider() {
    let request =
        request_for_model("builtin-4-sonnet", Some(custom_providers()), user_query_input());

    assert!(resolve_local_route(&request).is_none());
}

#[test]
fn does_not_route_when_no_providers_are_configured() {
    let request = request_for_model("cfg-123", None, user_query_input());

    assert!(resolve_local_route(&request).is_none());
}

#[test]
fn routes_passive_suggestion_requests_locally() {
    let request = request_for_model(
        "cfg-123",
        Some(custom_providers()),
        InputKind::GeneratePassiveSuggestions(GeneratePassiveSuggestions::default()),
    );

    let route = resolve_local_route(&request)
        .expect("passive suggestion requests for custom endpoint models should route locally");
    assert_eq!(route.config_key, "cfg-123");
}

#[test]
fn does_not_route_system_driven_inputs_like_code_review() {
    let request = request_for_model(
        "cfg-123",
        Some(custom_providers()),
        InputKind::CodeReview(Opaque::default()),
    );

    assert!(resolve_local_route(&request).is_none());
}

fn accepted_passive_suggestion_input() -> InputKind {
    InputKind::UserInputs(UserInputs {
        inputs: vec![
            UserInput {
                input: Some(UserInputKind::PassiveSuggestionResult(
                    PassiveSuggestionResultInput {
                        result: Some(PassiveSuggestionResultType {
                            trigger: Some(PassiveSuggestionTrigger::ExecutedShellCommand(
                                ExecutedShellCommand {
                                    command: "fd . .go".to_string(),
                                    exit_code: 1,
                                    ..Default::default()
                                },
                            )),
                            suggestion: Some(PassiveSuggestion::Prompt(SuggestedPrompt {
                                prompt: "Find go files".to_string(),
                            })),
                        }),
                    },
                )),
            },
            user_query("Find go files"),
        ],
    })
}

#[test]
fn route_request_serves_accepted_passive_suggestion_locally() {
    let request = request_for_model(
        "cfg-123",
        Some(custom_providers()),
        accepted_passive_suggestion_input(),
    );

    assert!(matches!(route_request(&request), RequestDisposition::Local(_)));
}

#[test]
fn route_request_serves_custom_endpoint_model_locally() {
    let request = request_for_model("cfg-123", Some(custom_providers()), user_query_input());

    assert!(matches!(route_request(&request), RequestDisposition::Local(_)));
}

#[test]
fn route_request_blocks_builtin_model_from_server() {
    let request =
        request_for_model("builtin-4-sonnet", Some(custom_providers()), user_query_input());

    assert!(matches!(route_request(&request), RequestDisposition::BlockedFromServer(_)));
}

#[test]
fn route_request_blocks_unsupported_input_from_server() {
    let request = request_for_model(
        "cfg-123",
        Some(custom_providers()),
        InputKind::CodeReview(Opaque::default()),
    );

    assert!(matches!(route_request(&request), RequestDisposition::BlockedFromServer(_)));
}

#[test]
fn blocked_requests_carry_the_reason() {
    let foreign = request_for_model("builtin-4-sonnet", Some(custom_providers()), user_query_input());
    assert_eq!(
        route_request(&foreign),
        RequestDisposition::BlockedFromServer(
            "the selected model is not a custom endpoint model"
        )
    );
    let review = request_for_model(
        "cfg-123",
        Some(custom_providers()),
        InputKind::CodeReview(Opaque::default()),
    );
    assert_eq!(
        route_request(&review),
        RequestDisposition::BlockedFromServer(
            "the local agent loop does not support this kind of request"
        )
    );
    let silent = Request::default();
    assert_eq!(
        route_request(&silent),
        RequestDisposition::BlockedFromServer(
            "the local agent loop does not support this kind of request"
        )
    );
}

#[test]
fn one_input_that_is_not_understood_blocks_the_turn() {
    let kind = InputKind::UserInputs(UserInputs {
        inputs: vec![
            user_query("hi"),
            UserInput { input: Some(UserInputKind::Other(Opaque::default())) },
        ],
    });
    let request = request_for_model("cfg-123", Some(custom_providers()), kind);
    assert!(resolve_local_route(&request).is_none());
    let empty = InputKind::UserInputs(UserInputs { inputs: vec![UserInput { input: None }] });
    let request = request_for_model("cfg-123", Some(custom_providers()), empty);
    assert!(resolve_local_route(&request).is_none());
}

#[test]
fn the_first_provider_with_the_model_wins() {
    let mut providers = custom_providers();
    let mut second = providers.providers[0].clone();
    second.base_url = "https://other.example.com".to_string();
    providers.providers.push(second);
    providers.providers.insert(0, CustomModelProvider::default());
    let request = request_for_model("cfg-123", Some(providers), user_query_input());
    let route = resolve_local_route(&request).expect("route");
    assert_eq!(route.endpoint.base_url, "https://llm.example.com/v1");
}
