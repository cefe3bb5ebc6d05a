//! A local agent loop that talks to an OpenAI-compatible chat completions
//! endpoint.
//!
//! A request is routed ([`route`]) and planned ([`plan`]): the transcript is
//! rebuilt from the task tree, and the tools of the turn are collected
//! ([`registry`], [`definitions`]). The host sends the request of [`openai`] and
//! hands what comes back to a turn ([`engine`]), whose events are mapped to the
//! items of the response stream ([`events`]). One turn is one completion: the
//! host carries out the tool calls and goes on with another turn.

pub mod api;
pub mod args;
pub mod asked;
pub mod calls;
pub mod definitions;
pub mod engine;
pub mod events;
pub mod fragments;
pub mod ids;
pub mod json;
pub mod keys;
pub mod mapped;
pub mod model;
pub mod offered;
pub mod openai;
pub mod plan;
pub mod prompt;
pub mod registry;
pub mod render;
pub mod replay;
pub mod route;
pub mod shown;
pub mod streamed;
pub mod structs;
pub mod suggest;
pub mod text;
pub mod told;
pub mod transcript;

pub use model::{
    AdapterError, AgentEvent, ChatMessage, LocalAgentError, LocalEndpointConfig, ToolCallRequest,
    ToolDefinition,
};
pub use prompt::{build_suggestion_system_prompt, build_system_prompt, EnvironmentInfo};
