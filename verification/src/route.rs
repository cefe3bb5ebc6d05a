//! Whether a request is served by the local agent loop.
//! 
//! A request is served locally when its base model belongs to one of the user's
//! custom endpoints and its input is of a kind that the local loop serves. Any
//! other request is blocked rather than forwarded.

use vstd::prelude::*;

use crate::api::request::{
    CustomModelProvider, CustomModelProviderView, CustomModelView, InputKind, InputKindView,
    Request, RequestView, SettingsView, UserInput, UserInputKind, UserInputKindView, UserInputView,
};
use crate::model::{LocalEndpointConfig, LocalEndpointConfigView};
use crate::text;

verus! {

/// A local route: the endpoint to call, and the config key that usage is reported under.
#[derive(Debug, PartialEq, Default)]
pub struct LocalRoute {
    pub endpoint: LocalEndpointConfig,
    pub config_key: String,
}

#[verifier::ext_equal]
pub struct LocalRouteView {
    pub endpoint: LocalEndpointConfigView,
    pub config_key: Seq<char>,
}

impl DeepView for LocalRoute {
    type V = LocalRouteView;

    open spec fn deep_view(&self) -> LocalRouteView {
        LocalRouteView {
            endpoint: self.endpoint.deep_view(),
            config_key: self.config_key@,
        }
    }
}

impl Clone for LocalRoute {
    fn clone(&self) -> (copy: Self)
        ensures
            copy.deep_view() == self.deep_view(),
    {
        LocalRoute {
            endpoint: self.endpoint.clone(),
            config_key: self.config_key.clone(),
        }
    }
}

/// What is to be done with a request.
#[derive(Debug, PartialEq)]
pub enum RequestDisposition {
    /// Serve the request locally via the resolved route.
    Local(LocalRoute),
    /// Forward the request to the server. No request comes to this.
    Server,
    /// The request cannot be served locally, for the reason given, and must not reach the server.
    BlockedFromServer(&'static str),
}

#[verifier::ext_equal]
pub enum RequestDispositionView {
    Local(LocalRouteView),
    Server,
    BlockedFromServer(Seq<char>),
}

impl DeepView for RequestDisposition {
    type V = RequestDispositionView;

    open spec fn deep_view(&self) -> RequestDispositionView {
        match self {
            RequestDisposition::Local(value) => RequestDispositionView::Local(value.deep_view()),
            RequestDisposition::Server => RequestDispositionView::Server,
            RequestDisposition::BlockedFromServer(value) => RequestDispositionView::BlockedFromServer(
                value@,
            ),
        }
    }
}

impl Clone for RequestDisposition {
    fn clone(&self) -> (copy: Self)
        ensures
            copy.deep_view() == self.deep_view(),
    {
        match self {
            RequestDisposition::Local(value) => RequestDisposition::Local(value.clone()),
            RequestDisposition::Server => RequestDisposition::Server,
            RequestDisposition::BlockedFromServer(value) => RequestDisposition::BlockedFromServer(
                *value,
            ),
        }
    }
}

/// Whether the local loop understands one of the inputs of a turn.
pub open spec fn understood(input: UserInputView) -> bool {
    match input.input {
        Some(UserInputKindView::UserQuery(_)) => true,
        Some(UserInputKindView::ToolCallResult(_)) => true,
        Some(UserInputKindView::PassiveSuggestionResult(_)) => true,
        _ => false,
    }
}

/// Whether the local loop serves a kind of input: turns of inputs that it understands, and
/// passive prompt suggestions.
pub open spec fn supported(kind: InputKindView) -> bool {
    match kind {
        InputKindView::UserInputs(turn) => forall|i: int|
            0 <= i < turn.inputs.len() ==> understood(#[trigger] turn.inputs[i]),
        InputKindView::GeneratePassiveSuggestions(_) => true,
        _ => false,
    }
}

/// Whether a request has an input that the local loop serves.
pub open spec fn servable(request: RequestView) -> bool {
    request.input matches Some(input) && input.kind matches Some(kind) && supported(kind)
}

/// The position among the first `count` models of the one with a config key.
pub open spec fn model_index(models: Seq<CustomModelView>, key: Seq<char>, count: nat) -> Option<int>
    decreases count,
{
    if count == 0 {
        None
    } else {
        match model_index(models, key, (count - 1) as nat) {
            Some(at) => Some(at),
            None => if models[count - 1].config_key == key {
                Some(count - 1)
            } else {
                None
            },
        }
    }
}

/// The route to a provider's model with a config key.
pub open spec fn route_to(provider: CustomModelProviderView, key: Seq<char>) -> Option<
    LocalRouteView,
> {
    match model_index(provider.models, key, provider.models.len()) {
        Some(at) => Some(
            LocalRouteView {
                endpoint: LocalEndpointConfigView {
                    base_url: provider.base_url,
                    api_key: provider.api_key,
                    model_slug: provider.models[at].slug,
                },
                config_key: provider.models[at].config_key,
            },
        ),
        None => None,
    }
}

/// The route to the first of the first `count` providers that has a model with a config key.
pub open spec fn first_route(
    providers: Seq<CustomModelProviderView>,
    key: Seq<char>,
    count: nat,
) -> Option<LocalRouteView>
    decreases count,
{
    if count == 0 {
        None
    } else {
        match first_route(providers, key, (count - 1) as nat) {
            Some(route) => Some(route),
            None => route_to(providers[count - 1], key),
        }
    }
}

/// The route that the settings of a request lead to.
pub open spec fn settled_route(settings: SettingsView) -> Option<LocalRouteView> {
    match (settings.model_config, settings.custom_model_providers) {
        (Some(model), Some(custom)) => first_route(
            custom.providers,
            model.base,
            custom.providers.len(),
        ),
        _ => None,
    }
}

/// The route of a request that is served locally.
pub open spec fn local_route(request: RequestView) -> Option<LocalRouteView> {
    match request.settings {
        Some(settings) => if servable(request) {
            settled_route(settings)
        } else {
            None
        },
        None => None,
    }
}

pub open spec fn unsupported_reason() -> Seq<char> {
    "the local agent loop does not support this kind of request"@
}

pub open spec fn foreign_model_reason() -> Seq<char> {
    "the selected model is not a custom endpoint model"@
}

/// Why a request that has no local route is blocked.
pub open spec fn reason_to_block(request: RequestView) -> Seq<char> {
    if servable(request) {
        foreign_model_reason()
    } else {
        unsupported_reason()
    }
}

/// What becomes of a request: it is served locally or blocked, and never forwarded.
pub open spec fn disposition(request: RequestView) -> RequestDispositionView {
    match local_route(request) {
        Some(route) => RequestDispositionView::Local(route),
        None => RequestDispositionView::BlockedFromServer(reason_to_block(request)),
    }
}

/// Whether the local loop understands one of the inputs of a turn.
pub fn is_understood(input: &UserInput) -> (result: bool)
    ensures
        result == understood(input.deep_view()),
{
    match &input.input {
        Some(UserInputKind::UserQuery(_)) => true,
        Some(UserInputKind::ToolCallResult(_)) => true,
        Some(UserInputKind::PassiveSuggestionResult(_)) => true,
        _ => false,
    }
}

/// Whether the local loop serves a kind of input.
pub fn is_supported_input(kind: &InputKind) -> (result: bool)
    ensures
        result == supported(kind.deep_view()),
{
    match kind {
        InputKind::UserInputs(turn) => {
            for i in 0..turn.inputs.len()
                invariant
                    *kind == InputKind::UserInputs(*turn),
                    forall|k: int|
                        0 <= k < i ==> understood(#[trigger] turn.inputs.deep_view()[k]),
            {
                assert(turn.inputs.deep_view()[i as int] == turn.inputs@[i as int].deep_view());
                if !is_understood(&turn.inputs[i]) {
                    assert(kind.deep_view()->UserInputs_0.inputs == turn.inputs.deep_view());
                    return false;
                }
            }
            true
        },
        InputKind::GeneratePassiveSuggestions(_) => true,
        _ => false,
    }
}

fn is_servable(request: &Request) -> (result: bool)
    ensures
        result == servable(request.deep_view()),
{
    match &request.input {
        Some(input) => match &input.kind {
            Some(kind) => is_supported_input(kind),
            None => false,
        },
        None => false,
    }
}

fn find_route(provider: &CustomModelProvider, key: &str) -> (route: Option<LocalRoute>)
    ensures
        route.deep_view() == route_to(provider.deep_view(), key@),
{
    let mut found: Option<usize> = None;
    for i in 0..provider.models.len()
        invariant
            match found {
                Some(at) => at < i && model_index(provider.models.deep_view(), key@, i as nat)
                    == Some(at as int),
                None => model_index(provider.models.deep_view(), key@, i as nat) is None,
            },
    {
        assert(provider.models.deep_view()[i as int] == provider.models@[i as int].deep_view());
        if found.is_none() && text::same_text(provider.models[i].config_key.as_str(), key) {
            found = Some(i);
        }
    }
    match found {
        Some(at) => {
            assert(provider.models.deep_view()[at as int] == provider.models@[at as int].deep_view());
            Some(
                LocalRoute {
                    endpoint: LocalEndpointConfig {
                        base_url: provider.base_url.clone(),
                        api_key: provider.api_key.clone(),
                        model_slug: provider.models[at].slug.clone(),
                    },
                    config_key: provider.models[at].config_key.clone(),
                },
            )
        },
        None => None,
    }
}

/// The local route of a request, where it has one: its input is of a kind that the local loop
/// serves, and its base model belongs to one of the user's custom endpoints.
pub fn resolve_local_route(request: &Request) -> (route: Option<LocalRoute>)
    ensures
        route.deep_view() == local_route(request.deep_view()),
{
    if !is_servable(request) {
        return None;
    }
    match &request.settings {
        Some(settings) => match (&settings.model_config, &settings.custom_model_providers) {
            (Some(model), Some(custom)) => {
                let mut route: Option<LocalRoute> = None;
                for i in 0..custom.providers.len()
                    invariant
                        route.deep_view() == first_route(
                            custom.providers.deep_view(),
                            model.base@,
                            i as nat,
                        ),
                {
                    assert(custom.providers.deep_view()[i as int]
                        == custom.providers@[i as int].deep_view());
                    if route.is_none() {
                        route = find_route(&custom.providers[i], model.base.as_str());
                    }
                }
                route
            },
            _ => None,
        },
        None => None,
    }
}

/// Explains why a request did not resolve to a local route.
pub fn block_reason(request: &Request) -> (reason: &'static str)
    ensures
        reason@ == reason_to_block(request.deep_view()),
{
    if is_servable(request) {
        "the selected model is not a custom endpoint model"
    } else {
        "the local agent loop does not support this kind of request"
    }
}

/// Decides whether a request is served locally or blocked.
pub fn route_request(request: &Request) -> (result: RequestDisposition)
    ensures
        result.deep_view() == disposition(request.deep_view()),
        !(result is Server),
{
    match resolve_local_route(request) {
        Some(route) => RequestDisposition::Local(route),
        None => RequestDisposition::BlockedFromServer(block_reason(request)),
    }
}

/// No request is ever forwarded to the server: it is served locally exactly where it has a
/// local route, and blocked otherwise, for one of two reasons.
pub proof fn nothing_reaches_the_server(request: RequestView)
    ensures
        !(disposition(request) is Server),
        disposition(request) is Local <==> local_route(request) is Some,
        disposition(request) matches RequestDispositionView::BlockedFromServer(reason) ==> reason
            == unsupported_reason() || reason == foreign_model_reason(),
{
}

proof fn model_index_has_key(models: Seq<CustomModelView>, key: Seq<char>, count: nat)
    requires
        count <= models.len(),
    ensures
        match model_index(models, key, count) {
            Some(at) => 0 <= at < count && models[at].config_key == key,
            None => forall|k: int| 0 <= k < count ==> (#[trigger] models[k]).config_key != key,
        },
    decreases count,
{
    if count > 0 {
        model_index_has_key(models, key, (count - 1) as nat);
    }
}

proof fn first_route_is_offered(
    providers: Seq<CustomModelProviderView>,
    key: Seq<char>,
    count: nat,
)
    requires
        count <= providers.len(),
    ensures
        match first_route(providers, key, count) {
            Some(route) => route.config_key == key && exists|p: int, m: int|
                offered_at(providers, route, p, m),
            None => forall|p: int, m: int|
                0 <= p < count && 0 <= m < providers[p].models.len() ==> (
                #[trigger] providers[p].models[m]).config_key != key,
        },
    decreases count,
{
    if count > 0 {
        first_route_is_offered(providers, key, (count - 1) as nat);
        let last = providers[count - 1];
        model_index_has_key(last.models, key, last.models.len());
        if first_route(providers, key, (count - 1) as nat) is None && route_to(last, key) is Some {
            let at = model_index(last.models, key, last.models.len())->0;
            assert(offered_at(providers, route_to(last, key)->0, count - 1, at));
        }
    }
}

/// Whether a route goes to the model at `m` of the provider at `p`.
pub open spec fn offered_at(
    providers: Seq<CustomModelProviderView>,
    route: LocalRouteView,
    p: int,
    m: int,
) -> bool {
    0 <= p < providers.len() && 0 <= m < providers[p].models.len() && route.endpoint.base_url
        == providers[p].base_url && route.endpoint.api_key == providers[p].api_key
        && route.endpoint.model_slug == providers[p].models[m].slug && route.config_key
        == providers[p].models[m].config_key
}

/// A local route goes to a configured model of a configured provider, and to the one whose config
/// key the request selects. A request that is servable and has settings gets one wherever such a
/// model exists.
pub proof fn local_route_is_configured(request: RequestView)
    requires
        servable(request),
        request.settings matches Some(settings) && settings.model_config is Some
            && settings.custom_model_providers is Some,
    ensures
        ({
            let settings = request.settings->0;
            let providers = settings.custom_model_providers->0.providers;
            let key = settings.model_config->0.base;
            match local_route(request) {
                Some(route) => route.config_key == key && exists|p: int, m: int|
                    offered_at(providers, route, p, m),
                None => forall|p: int, m: int|
                    0 <= p < providers.len() && 0 <= m < providers[p].models.len() ==> (
                    #[trigger] providers[p].models[m]).config_key != key,
            }
        }),
{
    let settings = request.settings->0;
    let providers = settings.custom_model_providers->0.providers;
    first_route_is_offered(providers, settings.model_config->0.base, providers.len());
}

/// Whether an input is of a kind that a conversation is made of: a query, a tool's result, or an
/// accepted suggestion.
pub open spec fn conversational(input: UserInputView) -> bool {
    input.input matches Some(kind) && (kind is UserQuery || kind is ToolCallResult
        || kind is PassiveSuggestionResult)
}

/// Whether a request brings a turn of a conversation, or asks for a passive suggestion.
pub open spec fn brings_turn(request: RequestView) -> bool {
    request.input matches Some(input) && (input.kind matches Some(kind) && (
    kind is GeneratePassiveSuggestions || (kind matches InputKindView::UserInputs(turn) && forall|
        i: int,
    |
        0 <= i < turn.inputs.len() ==> conversational(#[trigger] turn.inputs[i]))))
}

/// Whether the model at `m` of the provider at `p` is the one that a request selects: it has the
/// config key of the request's base model, and no model before it has.
pub open spec fn selected_at(request: RequestView, p: int, m: int) -> bool {
    request.settings matches Some(settings) && (settings.model_config matches Some(model) && (
    settings.custom_model_providers matches Some(custom) && ({
        let providers = custom.providers;
        &&& 0 <= p < providers.len() && 0 <= m < providers[p].models.len()
        &&& providers[p].models[m].config_key == model.base
        &&& forall|q: int, n: int|
            0 <= q < providers.len() && 0 <= n < providers[q].models.len() && (q < p || (q == p && n
                < m)) ==> (#[trigger] providers[q].models[n]).config_key != model.base
    })))
}

/// Whether a request selects a model of a custom endpoint.
pub open spec fn selects_model(request: RequestView) -> bool {
    exists|p: int, m: int| selected_at(request, p, m)
}

/// Whether a route goes to the model that a request selects.
pub open spec fn goes_to_selected(request: RequestView, route: LocalRouteView) -> bool {
    exists|p: int, m: int| #[trigger]
        selected_at(request, p, m) && offered_at(
            request.settings->0.custom_model_providers->0.providers,
            route,
            p,
            m,
        )
}

proof fn model_index_is_first(models: Seq<CustomModelView>, key: Seq<char>, count: nat)
    requires
        count <= models.len(),
    ensures
        match model_index(models, key, count) {
            Some(at) => 0 <= at < count && models[at].config_key == key && forall|k: int|
                0 <= k < at ==> (#[trigger] models[k]).config_key != key,
            None => forall|k: int| 0 <= k < count ==> (#[trigger] models[k]).config_key != key,
        },
    decreases count,
{
    if count > 0 {
        model_index_is_first(models, key, (count - 1) as nat);
    }
}

/// Whether a route goes to the model at `m` of the provider at `p`, the first with a config key.
spec fn first_at(
    providers: Seq<CustomModelProviderView>,
    key: Seq<char>,
    route: LocalRouteView,
    p: int,
    m: int,
) -> bool {
    &&& offered_at(providers, route, p, m)
    &&& providers[p].models[m].config_key == key
    &&& forall|q: int, n: int|
        0 <= q < providers.len() && 0 <= n < providers[q].models.len() && (q < p || (q == p && n
            < m)) ==> (#[trigger] providers[q].models[n]).config_key != key
}

proof fn first_route_is_first(providers: Seq<CustomModelProviderView>, key: Seq<char>, count: nat)
    requires
        count <= providers.len(),
    ensures
        match first_route(providers, key, count) {
            Some(route) => exists|p: int, m: int| first_at(providers, key, route, p, m),
            None => forall|q: int, n: int|
                0 <= q < count && 0 <= n < providers[q].models.len() ==> (
                #[trigger] providers[q].models[n]).config_key != key,
        },
    decreases count,
{
    if count > 0 {
        first_route_is_first(providers, key, (count - 1) as nat);
        let last = providers[count - 1];
        model_index_is_first(last.models, key, last.models.len());
        if first_route(providers, key, (count - 1) as nat) is None && route_to(last, key) is Some {
            let at = model_index(last.models, key, last.models.len())->0;
            assert(first_at(providers, key, route_to(last, key)->0, count - 1, at));
        }
    }
}

/// A request is served locally exactly where it brings a turn of a conversation, of queries, tool
/// results and accepted suggestions in any mix, or asks for a passive suggestion, and selects a
/// model of a custom endpoint. It then goes to the first such model, with the endpoint's own
/// address and key. A request that brings something else is blocked for that, and any other for
/// its model.
pub proof fn custom_model_requests_are_served(request: RequestView)
    ensures
        disposition(request) is Local <==> brings_turn(request) && selects_model(request),
        disposition(request) matches RequestDispositionView::Local(route) ==> goes_to_selected(
            request,
            route,
        ),
        !(disposition(request) is Local) ==> disposition(request)
            == RequestDispositionView::BlockedFromServer(
            if brings_turn(request) {
                "the selected model is not a custom endpoint model"@
            } else {
                "the local agent loop does not support this kind of request"@
            },
        ),
{
    assert(servable(request) == brings_turn(request)) by {
        if servable(request) {
            if let InputKindView::UserInputs(turn) = request.input->0.kind->0 {
                assert forall|i: int| 0 <= i < turn.inputs.len() implies conversational(
                    #[trigger] turn.inputs[i],
                ) by {
                    assert(understood(turn.inputs[i]));
                }
            }
        }
        if brings_turn(request) {
            if let InputKindView::UserInputs(turn) = request.input->0.kind->0 {
                assert forall|i: int| 0 <= i < turn.inputs.len() implies understood(
                    #[trigger] turn.inputs[i],
                ) by {
                    assert(conversational(turn.inputs[i]));
                }
            }
        }
    }
    if let Some(settings) = request.settings {
        if settings.model_config is Some && settings.custom_model_providers is Some {
            let providers = settings.custom_model_providers->0.providers;
            let key = settings.model_config->0.base;
            first_route_is_first(providers, key, providers.len());
            if let Some(route) = first_route(providers, key, providers.len()) {
                let (p, m) = choose|p: int, m: int| first_at(providers, key, route, p, m);
                assert(selected_at(request, p, m));
                assert(offered_at(providers, route, p, m));
            } else if selects_model(request) {
                let (p, m) = choose|p: int, m: int| selected_at(request, p, m);
                assert(providers[p].models[m].config_key == key);
            }
        }
    }
}

} // verus!
