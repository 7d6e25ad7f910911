//! The Anthropic provider: its settings, the requests it sends, and the events
//! it reads from a streamed answer.

use vstd::prelude::*;

use crate::json;
use crate::json::{Json, JsonError, JsonTree};
use crate::messages;
use crate::messages::{ContentModel, Message, MessageModel};
use crate::text;

verus! {

// ---------------------------------------------------------------------------
// Settings
// ---------------------------------------------------------------------------

/// Where the service is reached when nothing else is said.
pub const DEFAULT_API_URL: &'static str = "https://api.anthropic.com/v1/messages";

/// The version of the service.
pub const ANTHROPIC_VERSION: &'static str = "2023-06-01";

/// How long an answer may be when nothing else is said, in tokens.
pub const DEFAULT_MAX_TOKENS: u32 = 32000;

/// A key, and where the service is reached with it.
pub struct AuthConfig {
    pub api_key: String,
    pub base_url: Option<String>,
}

impl AuthConfig {
    /// A key for the usual place.
    pub fn new(api_key: &str) -> (r: AuthConfig)
        ensures
            r.api_key@ == api_key@,
            r.base_url is None,
    {
        AuthConfig { api_key: api_key.to_string(), base_url: None }
    }

    /// A key for another place.
    pub fn with_base_url(api_key: &str, base_url: &str) -> (r: AuthConfig)
        ensures
            r.api_key@ == api_key@,
            r.base_url matches Some(url) && url@ == base_url@,
    {
        AuthConfig { api_key: api_key.to_string(), base_url: Some(base_url.to_string()) }
    }

    /// Where the service is reached.
    pub open spec fn url(&self) -> Seq<char> {
        match self.base_url {
            Some(url) => url@,
            None => DEFAULT_API_URL@,
        }
    }

    /// Where the service is reached.
    pub fn api_url(&self) -> (r: &str)
        ensures
            r@ == self.url(),
    {
        match &self.base_url {
            Some(url) => url.as_str(),
            None => DEFAULT_API_URL,
        }
    }

    /// The same key and place.
    pub fn copy(&self) -> (r: AuthConfig)
        ensures
            same_auth(r, *self),
    {
        AuthConfig {
            api_key: self.api_key.clone(),
            base_url: match &self.base_url {
                Some(url) => Some(url.clone()),
                None => None,
            },
        }
    }
}

/// Whether two keys and places are the same.
pub open spec fn same_auth(a: AuthConfig, b: AuthConfig) -> bool {
    a.api_key@ == b.api_key@ && text::opt_view(a.base_url) == text::opt_view(b.base_url)
}

/// Where the key comes from.
pub enum AuthSource {
    /// It stays the same.
    Static(AuthConfig),
    /// It is asked for before each request.
    Dynamic,
}

/// Whether two keys come from the same source.
pub open spec fn same_source(a: AuthSource, b: AuthSource) -> bool {
    match (a, b) {
        (AuthSource::Static(x), AuthSource::Static(y)) => same_auth(x, y),
        (AuthSource::Dynamic, AuthSource::Dynamic) => true,
        _ => false,
    }
}

/// What the environment says about the provider.
pub struct EnvSettings {
    pub api_key: Option<String>,
    pub base_url: Option<String>,
    pub model: Option<String>,
    pub max_tokens: Option<String>,
}

/// The Anthropic provider.
pub struct AnthropicProvider {
    pub auth: AuthSource,
    pub model: String,
    pub max_tokens: u32,
}

impl AnthropicProvider {
    /// A provider as the environment describes it. A key and a model are needed;
    /// a limit on tokens that is no number is passed over.
    pub fn from_env(env: EnvSettings) -> (r: Result<AnthropicProvider, String>)
        ensures
            match r {
                Ok(p) => {
                    &&& env.api_key matches Some(key)
                    &&& env.model matches Some(model)
                    &&& p.auth == AuthSource::Static(
                        AuthConfig { api_key: key, base_url: env.base_url },
                    )
                    &&& p.model == model
                    &&& p.max_tokens == limit_in(text::opt_view(env.max_tokens))
                },
                Err(e) => if env.api_key is None {
                    e@ == "ANTHROPIC_API_KEY environment variable not set"@
                } else {
                    &&& env.model is None
                    &&& e@ == "ANTHROPIC_MODEL environment variable not set"@
                },
            },
    {
        let api_key = match env.api_key {
            Some(key) => key,
            None => return Err("ANTHROPIC_API_KEY environment variable not set".to_string()),
        };
        let model = match env.model {
            Some(model) => model,
            None => return Err("ANTHROPIC_MODEL environment variable not set".to_string()),
        };
        let max_tokens: u32 = match &env.max_tokens {
            Some(s) => match text::parse_number(s.as_str(), u32::MAX as u64) {
                Some(n) => n as u32,
                None => DEFAULT_MAX_TOKENS,
            },
            None => DEFAULT_MAX_TOKENS,
        };
        Ok(
            AnthropicProvider {
                auth: AuthSource::Static(AuthConfig { api_key, base_url: env.base_url }),
                model,
                max_tokens,
            },
        )
    }

    /// A provider with a key, and no model yet.
    pub fn new(api_key: &str) -> (r: AnthropicProvider)
        ensures
            r.auth matches AuthSource::Static(a) && a.api_key@ == api_key@ && a.base_url is None,
            r.model@.len() == 0,
            r.max_tokens == DEFAULT_MAX_TOKENS,
    {
        AnthropicProvider {
            auth: AuthSource::Static(AuthConfig::new(api_key)),
            model: String::new(),
            max_tokens: DEFAULT_MAX_TOKENS,
        }
    }

    /// A provider that asks for its key before each request, and has no model yet.
    pub fn with_auth_provider() -> (r: AnthropicProvider)
        ensures
            r.auth is Dynamic,
            r.model@.len() == 0,
            r.max_tokens == DEFAULT_MAX_TOKENS,
    {
        AnthropicProvider {
            auth: AuthSource::Dynamic,
            model: String::new(),
            max_tokens: DEFAULT_MAX_TOKENS,
        }
    }

    /// The provider with a model.
    pub fn with_model(self, model: &str) -> (r: AnthropicProvider)
        ensures
            r.model@ == model@,
            r.auth == self.auth,
            r.max_tokens == self.max_tokens,
    {
        AnthropicProvider { model: model.to_string(), ..self }
    }

    /// The provider with a limit on the length of answers.
    pub fn with_max_tokens(self, max_tokens: u32) -> (r: AnthropicProvider)
        ensures
            r == (AnthropicProvider { max_tokens, ..self }),
    {
        AnthropicProvider { max_tokens, ..self }
    }

    /// The model.
    pub fn model(&self) -> (r: &str)
        ensures
            r@ == self.model@,
    {
        self.model.as_str()
    }

    /// The limit on the length of answers, in tokens.
    pub fn max_tokens(&self) -> (r: u32)
        ensures
            r == self.max_tokens,
    {
        self.max_tokens
    }

    /// A provider with another model and the same key.
    pub fn with_model_override(&self, model: &str) -> (r: AnthropicProvider)
        ensures
            r.model@ == model@,
            r.max_tokens == self.max_tokens,
            same_source(r.auth, self.auth),
    {
        self.with_model_and_tokens_override(model, self.max_tokens)
    }

    /// A provider with another model, another limit and the same key.
    pub fn with_model_and_tokens_override(&self, model: &str, max_tokens: u32) -> (r:
        AnthropicProvider)
        ensures
            r.model@ == model@,
            r.max_tokens == max_tokens,
            same_source(r.auth, self.auth),
    {
        let auth = match &self.auth {
            AuthSource::Static(a) => AuthSource::Static(a.copy()),
            AuthSource::Dynamic => AuthSource::Dynamic,
        };
        AnthropicProvider { auth, model: model.to_string(), max_tokens }
    }

    /// The name of the provider.
    pub fn provider_name(&self) -> (r: &'static str)
        ensures
            r@ == "anthropic"@,
    {
        "anthropic"
    }
}

/// The limit on tokens that a setting gives.
pub open spec fn limit_in(s: Option<Seq<char>>) -> nat {
    match s {
        Some(s) => match text::parsed(s, u32::MAX as nat) {
            Some(n) => n,
            None => DEFAULT_MAX_TOKENS as nat,
        },
        None => DEFAULT_MAX_TOKENS as nat,
    }
}

// ---------------------------------------------------------------------------
// Requests
// ---------------------------------------------------------------------------

/// The instructions that go before a conversation.
pub enum SystemPrompt {
    Text(String),
    Blocks(Vec<Json>),
}

/// How much the model may think.
#[derive(Clone, Copy, Debug, PartialEq, Eq, Structural)]
pub struct ThinkingConfig {
    pub budget_tokens: u32,
}

impl ThinkingConfig {
    /// Thinking, with a budget of tokens.
    pub fn enabled(budget_tokens: u32) -> (r: ThinkingConfig)
        ensures
            r.budget_tokens == budget_tokens,
    {
        ThinkingConfig { budget_tokens }
    }
}

/// What a tool takes.
pub struct ToolInputSchema {
    pub schema_type: String,
    pub properties: Option<Json>,
    pub required: Option<Vec<String>>,
}

/// A tool of the agent.
pub struct CustomTool {
    pub name: String,
    pub description: Option<String>,
    pub input_schema: ToolInputSchema,
    pub tool_type: Option<String>,
    pub cache_control: Option<Json>,
}

/// A tool that the model may use.
pub enum ToolDefinition {
    Custom(CustomTool),
    Other(Json),
}

/// A tool with a name, a description, and the arguments it takes.
pub fn define_tool(name: &str, description: &str, properties: Json, required: Vec<String>) -> (r:
    ToolDefinition)
    ensures
        r matches ToolDefinition::Custom(t) && {
            &&& t.name@ == name@
            &&& text::opt_view(t.description) == Some(description@)
            &&& t.input_schema.schema_type@ == "object"@
            &&& t.input_schema.properties == Some(properties)
            &&& t.input_schema.required == Some(required)
            &&& t.tool_type is None
            &&& t.cache_control is None
        },
{
    ToolDefinition::Custom(
        CustomTool {
            name: name.to_string(),
            description: Some(description.to_string()),
            input_schema: ToolInputSchema {
                schema_type: "object".to_string(),
                properties: Some(properties),
                required: Some(required),
            },
            tool_type: None,
            cache_control: None,
        },
    )
}

/// A request to the model.
pub struct MessageRequest {
    pub model: String,
    pub max_tokens: u32,
    pub messages: Vec<Message>,
    pub system: Option<SystemPrompt>,
    pub tools: Option<Vec<ToolDefinition>>,
    pub tool_choice: Option<Json>,
    pub thinking: Option<ThinkingConfig>,
    pub temperature: Option<u32>,
    pub stream: Option<bool>,
}

/// A request, and what is said about it beside its body.
pub struct ApiCall {
    pub request: MessageRequest,
    pub session_id: Option<String>,
}

/// The temperature of a request: thinking needs the value one.
pub open spec fn temperature_for(thinking: Option<ThinkingConfig>) -> Option<u32> {
    if thinking is Some {
        Some(1u32)
    } else {
        None
    }
}

/// The tools of a request: none at all, where the list is empty.
pub open spec fn tools_for(tools: Vec<ToolDefinition>) -> Option<Vec<ToolDefinition>> {
    if tools@.len() == 0 {
        None
    } else {
        Some(tools)
    }
}

/// Whether a system prompt is a text, or there is none.
pub open spec fn prompt_is(system: Option<SystemPrompt>, s: Option<Seq<char>>) -> bool {
    match (system, s) {
        (Some(SystemPrompt::Text(t)), Some(s)) => t@ == s,
        (None, None) => true,
        _ => false,
    }
}

/// Whether a request says one more thing in a conversation, without tools.
pub open spec fn says(
    p: AnthropicProvider,
    call: ApiCall,
    user_message: Seq<char>,
    history: Seq<MessageModel>,
    system_prompt: Option<Seq<char>>,
) -> bool {
    let r = call.request;
    &&& r.model@ == p.model@
    &&& r.max_tokens == p.max_tokens
    &&& messages::message_views(r.messages@) == history.push(
        MessageModel { role: "user"@, content: ContentModel::Text(user_message) },
    )
    &&& prompt_is(r.system, system_prompt)
    &&& r.tools is None
    &&& r.tool_choice is None
    &&& r.thinking is None
    &&& r.temperature is None
}

/// Whether a request hands over a conversation, with tools.
pub open spec fn asks(
    p: AnthropicProvider,
    call: ApiCall,
    messages: Vec<Message>,
    tools: Vec<ToolDefinition>,
    tool_choice: Option<Json>,
    thinking: Option<ThinkingConfig>,
) -> bool {
    let r = call.request;
    &&& r.model@ == p.model@
    &&& r.max_tokens == p.max_tokens
    &&& r.messages == messages
    &&& r.tools == tools_for(tools)
    &&& r.tool_choice == tool_choice
    &&& r.thinking == thinking
    &&& r.temperature == temperature_for(thinking)
}

/// A system prompt that is a text.
fn text_prompt(s: Option<&str>) -> (r: Option<SystemPrompt>)
    ensures
        prompt_is(r, text::opt_str_view(s)),
{
    match s {
        Some(s) => Some(SystemPrompt::Text(s.to_string())),
        None => None,
    }
}

impl AnthropicProvider {
    /// A request that says one more thing in a conversation, without tools.
    fn say(
        &self,
        user_message: &str,
        conversation_history: &Vec<Message>,
        system_prompt: Option<&str>,
        stream: Option<bool>,
        session_id: Option<&str>,
    ) -> (r: ApiCall)
        ensures
            says(
                *self,
                r,
                user_message@,
                messages::message_views(conversation_history@),
                text::opt_str_view(system_prompt),
            ),
            r.request.model@ == self.model@,
            r.request.max_tokens == self.max_tokens,
            r.request.messages@.len() == conversation_history@.len() + 1,
            r.request.messages@.last()@.role == "user"@,
            r.request.messages@.last()@.content == ContentModel::Text(user_message@),
            forall|i: int|
                0 <= i < conversation_history@.len() ==> (#[trigger] r.request.messages@[i])@
                    == conversation_history@[i]@,
            system_prompt matches Some(s) ==> r.request.system matches Some(SystemPrompt::Text(t))
                && t@ == s@,
            system_prompt is None ==> r.request.system is None,
            r.request.tools is None,
            r.request.thinking is None,
            r.request.stream == stream,
            text::opt_view(r.session_id) == text::opt_str_view(session_id),
    {
        let mut messages = Message::copy_all(conversation_history);
        let ghost was = messages::message_views(messages@);
        let said = Message::user(user_message);
        messages.push(said);
        assert(messages::message_views(messages@) =~= was.push(said@));
        assert forall|i: int| 0 <= i < conversation_history@.len() implies (
        #[trigger] messages@[i])@ == conversation_history@[i]@ by {
            assert(was[i] == messages::message_views(conversation_history@)[i]);
            assert(messages::message_views(messages@)[i] == was[i]);
        }
        ApiCall {
            request: MessageRequest {
                model: self.model.clone(),
                max_tokens: self.max_tokens,
                messages,
                system: text_prompt(system_prompt),
                tools: None,
                tool_choice: None,
                thinking: None,
                temperature: None,
                stream,
            },
            session_id: text::copy_opt_str(session_id),
        }
    }

    /// A request that hands over a conversation, with tools.
    fn ask(
        &self,
        messages: Vec<Message>,
        system: Option<SystemPrompt>,
        tools: Vec<ToolDefinition>,
        tool_choice: Option<Json>,
        thinking: Option<ThinkingConfig>,
        stream: Option<bool>,
        session_id: Option<&str>,
    ) -> (r: ApiCall)
        ensures
            asks(*self, r, messages, tools, tool_choice, thinking),
            r.request.model@ == self.model@,
            r.request.max_tokens == self.max_tokens,
            r.request.messages == messages,
            tools@.len() > 0 ==> r.request.tools == Some(tools),
            tools@.len() == 0 ==> r.request.tools is None,
            r.request.tool_choice == tool_choice,
            r.request.thinking == thinking,
            thinking is Some ==> r.request.temperature == Some(1u32),
            thinking is None ==> r.request.temperature is None,
            r.request.system == system,
            r.request.stream == stream,
            text::opt_view(r.session_id) == text::opt_str_view(session_id),
    {
        ApiCall {
            request: MessageRequest {
                model: self.model.clone(),
                max_tokens: self.max_tokens,
                messages,
                system,
                tools: if tools.len() == 0 {
                    None
                } else {
                    Some(tools)
                },
                tool_choice,
                temperature: if thinking.is_some() {
                    Some(1)
                } else {
                    None
                },
                thinking,
                stream,
            },
            session_id: text::copy_opt_str(session_id),
        }
    }

    /// Says one more thing in a conversation, without tools.
    pub fn send_message(
        &self,
        user_message: &str,
        conversation_history: &Vec<Message>,
        system_prompt: Option<&str>,
        session_id: Option<&str>,
    ) -> (r: ApiCall)
        ensures
            says(
                *self,
                r,
                user_message@,
                messages::message_views(conversation_history@),
                text::opt_str_view(system_prompt),
            ),
            r.request.model@ == self.model@,
            r.request.max_tokens == self.max_tokens,
            r.request.messages@.len() == conversation_history@.len() + 1,
            r.request.messages@.last()@.role == "user"@,
            r.request.messages@.last()@.content == ContentModel::Text(user_message@),
            forall|i: int|
                0 <= i < conversation_history@.len() ==> (#[trigger] r.request.messages@[i])@
                    == conversation_history@[i]@,
            system_prompt matches Some(s) ==> r.request.system matches Some(SystemPrompt::Text(t))
                && t@ == s@,
            system_prompt is None ==> r.request.system is None,
            r.request.tools is None,
            r.request.thinking is None,
            r.request.stream is None,
            text::opt_view(r.session_id) == text::opt_str_view(session_id),
    {
        self.say(user_message, conversation_history, system_prompt, None, session_id)
    }

    /// Hands over a conversation, with tools.
    pub fn send_with_tools(
        &self,
        messages: Vec<Message>,
        system_prompt: Option<&str>,
        tools: Vec<ToolDefinition>,
        tool_choice: Option<Json>,
        thinking: Option<ThinkingConfig>,
    ) -> (r: ApiCall)
        ensures
            asks(*self, r, messages, tools, tool_choice, thinking),
            r.request.model@ == self.model@,
            r.request.max_tokens == self.max_tokens,
            r.request.messages == messages,
            tools@.len() > 0 ==> r.request.tools == Some(tools),
            tools@.len() == 0 ==> r.request.tools is None,
            r.request.tool_choice == tool_choice,
            r.request.thinking == thinking,
            thinking is Some ==> r.request.temperature == Some(1u32),
            thinking is None ==> r.request.temperature is None,
            prompt_is(r.request.system, text::opt_str_view(system_prompt)),
            system_prompt matches Some(s) ==> r.request.system matches Some(SystemPrompt::Text(t))
                && t@ == s@,
            system_prompt is None ==> r.request.system is None,
            r.request.stream is None,
            r.session_id is None,
    {
        self.ask(messages, text_prompt(system_prompt), tools, tool_choice, thinking, None, None)
    }

    /// Hands over a conversation, with tools and a system prompt of any form.
    pub fn send_with_tools_and_system(
        &self,
        messages: Vec<Message>,
        system: Option<SystemPrompt>,
        tools: Vec<ToolDefinition>,
        tool_choice: Option<Json>,
        thinking: Option<ThinkingConfig>,
        session_id: Option<&str>,
    ) -> (r: ApiCall)
        ensures
            asks(*self, r, messages, tools, tool_choice, thinking),
            r.request.model@ == self.model@,
            r.request.max_tokens == self.max_tokens,
            r.request.messages == messages,
            tools@.len() > 0 ==> r.request.tools == Some(tools),
            tools@.len() == 0 ==> r.request.tools is None,
            r.request.tool_choice == tool_choice,
            r.request.thinking == thinking,
            thinking is Some ==> r.request.temperature == Some(1u32),
            thinking is None ==> r.request.temperature is None,
            r.request.system == system,
            r.request.stream is None,
            text::opt_view(r.session_id) == text::opt_str_view(session_id),
    {
        self.ask(messages, system, tools, tool_choice, thinking, None, session_id)
    }

    /// Says one more thing in a conversation, and has the answer streamed.
    pub fn stream_message(
        &self,
        user_message: &str,
        conversation_history: &Vec<Message>,
        system_prompt: Option<&str>,
    ) -> (r: ApiCall)
        ensures
            says(
                *self,
                r,
                user_message@,
                messages::message_views(conversation_history@),
                text::opt_str_view(system_prompt),
            ),
            r.request.model@ == self.model@,
            r.request.max_tokens == self.max_tokens,
            r.request.messages@.len() == conversation_history@.len() + 1,
            r.request.messages@.last()@.role == "user"@,
            r.request.messages@.last()@.content == ContentModel::Text(user_message@),
            forall|i: int|
                0 <= i < conversation_history@.len() ==> (#[trigger] r.request.messages@[i])@
                    == conversation_history@[i]@,
            system_prompt matches Some(s) ==> r.request.system matches Some(SystemPrompt::Text(t))
                && t@ == s@,
            system_prompt is None ==> r.request.system is None,
            r.request.tools is None,
            r.request.thinking is None,
            r.request.stream == Some(true),
            r.session_id is None,
    {
        self.say(user_message, conversation_history, system_prompt, Some(true), None)
    }

    /// Hands over a conversation, with tools, and has the answer streamed.
    pub fn stream_with_tools(
        &self,
        messages: Vec<Message>,
        system_prompt: Option<&str>,
        tools: Vec<ToolDefinition>,
        tool_choice: Option<Json>,
        thinking: Option<ThinkingConfig>,
    ) -> (r: ApiCall)
        ensures
            asks(*self, r, messages, tools, tool_choice, thinking),
            r.request.model@ == self.model@,
            r.request.max_tokens == self.max_tokens,
            r.request.messages == messages,
            tools@.len() > 0 ==> r.request.tools == Some(tools),
            tools@.len() == 0 ==> r.request.tools is None,
            r.request.tool_choice == tool_choice,
            r.request.thinking == thinking,
            thinking is Some ==> r.request.temperature == Some(1u32),
            thinking is None ==> r.request.temperature is None,
            prompt_is(r.request.system, text::opt_str_view(system_prompt)),
            system_prompt matches Some(s) ==> r.request.system matches Some(SystemPrompt::Text(t))
                && t@ == s@,
            system_prompt is None ==> r.request.system is None,
            r.request.stream == Some(true),
            r.session_id is None,
    {
        self.ask(
            messages,
            text_prompt(system_prompt),
            tools,
            tool_choice,
            thinking,
            Some(true),
            None,
        )
    }

    /// Hands over a conversation, with tools and a system prompt of any form, and
    /// has the answer streamed.
    pub fn stream_with_tools_and_system(
        &self,
        messages: Vec<Message>,
        system: Option<SystemPrompt>,
        tools: Vec<ToolDefinition>,
        tool_choice: Option<Json>,
        thinking: Option<ThinkingConfig>,
        session_id: Option<&str>,
    ) -> (r: ApiCall)
        ensures
            asks(*self, r, messages, tools, tool_choice, thinking),
            r.request.model@ == self.model@,
            r.request.max_tokens == self.max_tokens,
            r.request.messages == messages,
            tools@.len() > 0 ==> r.request.tools == Some(tools),
            tools@.len() == 0 ==> r.request.tools is None,
            r.request.tool_choice == tool_choice,
            r.request.thinking == thinking,
            thinking is Some ==> r.request.temperature == Some(1u32),
            thinking is None ==> r.request.temperature is None,
            r.request.system == system,
            r.request.stream == Some(true),
            text::opt_view(r.session_id) == text::opt_str_view(session_id),
    {
        self.ask(messages, system, tools, tool_choice, thinking, Some(true), session_id)
    }
}

/// The headers of a list.
pub open spec fn header_views(v: Seq<(String, String)>) -> Seq<(Seq<char>, Seq<char>)> {
    Seq::new(v.len(), |i: int| (v[i].0@, v[i].1@))
}

/// The headers of a request. The session has another header where the answer is
/// streamed.
pub open spec fn headers_for(call: ApiCall, api_key: Seq<char>) -> Seq<(Seq<char>, Seq<char>)> {
    let base = seq![
        ("Content-Type"@, "application/json"@),
        ("x-api-key"@, api_key),
        ("anthropic-version"@, ANTHROPIC_VERSION@),
        ("anthropic-beta"@, "interleaved-thinking-2025-05-14"@),
    ];
    match call.session_id {
        Some(sid) => base.push(
            (
                if call.request.stream == Some(true) {
                    "X-Agent-Session-Id"@
                } else {
                    "agent-session-id"@
                },
                sid@,
            ),
        ),
        None => base,
    }
}

/// A header.
fn header(name: &str, value: &str) -> (r: (String, String))
    ensures
        r.0@ == name@,
        r.1@ == value@,
{
    (name.to_string(), value.to_string())
}

impl ApiCall {
    /// The headers of the request.
    pub fn headers(&self, auth: &AuthConfig) -> (r: Vec<(String, String)>)
        ensures
            header_views(r@) == headers_for(*self, auth.api_key@),
    {
        let mut r: Vec<(String, String)> = Vec::new();
        r.push(header("Content-Type", "application/json"));
        r.push(header("x-api-key", auth.api_key.as_str()));
        r.push(header("anthropic-version", ANTHROPIC_VERSION));
        r.push(header("anthropic-beta", "interleaved-thinking-2025-05-14"));
        if let Some(sid) = &self.session_id {
            let streamed = match self.request.stream {
                Some(b) => b,
                None => false,
            };
            if streamed {
                r.push(header("X-Agent-Session-Id", sid.as_str()));
            } else {
                r.push(header("agent-session-id", sid.as_str()));
            }
        }
        assert(header_views(r@) =~= headers_for(*self, auth.api_key@));
        r
    }
}

/// Why a request was refused, by the status of the answer and what the answer
/// says; a status of success is no refusal.
pub fn api_error(code: u16, status: &str, body: &str) -> (r: Option<String>)
    ensures
        match r {
            Some(e) => !(200 <= code < 300) && e@ == "Anthropic API error ("@ + status@ + "): "@
                + body@,
            None => 200 <= code < 300,
        },
{
    if code >= 200 && code < 300 {
        None
    } else {
        Some(text::cat4("Anthropic API error (", status, "): ", body))
    }
}

// ---------------------------------------------------------------------------
// Streamed events
// ---------------------------------------------------------------------------

/// The types of events that carry data.
pub open spec fn known_event(t: Seq<char>) -> bool {
    t == "message_start"@ || t == "content_block_start"@ || t == "content_block_delta"@ || t
        == "content_block_stop"@ || t == "message_delta"@ || t == "message_stop"@ || t == "ping"@
        || t == "error"@
}

/// An event of an answer that comes bit by bit.
pub enum StreamEvent {
    /// The answer begins.
    MessageStart { message: Json },
    /// A part of the answer begins.
    ContentBlockStart { index: u64, content_block: Json },
    /// More of a part of the answer.
    ContentBlockDelta { index: u64, delta: Json },
    /// A part of the answer ends.
    ContentBlockStop { index: u64 },
    /// Why the answer ends, and what it took.
    MessageDelta { delta: Json, usage: Option<Json> },
    /// The answer has ended.
    MessageStop,
    /// Nothing has come yet.
    Ping,
    /// The answer failed.
    Error { kind: String, message: String },
}

/// An event of an answer that comes bit by bit.
#[verifier::ext_equal]
pub enum EventModel {
    MessageStart { message: JsonTree },
    ContentBlockStart { index: u64, content_block: JsonTree },
    ContentBlockDelta { index: u64, delta: JsonTree },
    ContentBlockStop { index: u64 },
    MessageDelta { delta: JsonTree, usage: Option<JsonTree> },
    MessageStop,
    Ping,
    Error { kind: Seq<char>, message: Seq<char> },
}

impl View for StreamEvent {
    type V = EventModel;

    open spec fn view(&self) -> EventModel {
        match self {
            StreamEvent::MessageStart { message } => EventModel::MessageStart { message: message@ },
            StreamEvent::ContentBlockStart { index, content_block } => {
                EventModel::ContentBlockStart { index: *index, content_block: content_block@ }
            },
            StreamEvent::ContentBlockDelta { index, delta } => EventModel::ContentBlockDelta {
                index: *index,
                delta: delta@,
            },
            StreamEvent::ContentBlockStop { index } => EventModel::ContentBlockStop {
                index: *index,
            },
            StreamEvent::MessageDelta { delta, usage } => EventModel::MessageDelta {
                delta: delta@,
                usage: match usage {
                    Some(u) => Some(u@),
                    None => None,
                },
            },
            StreamEvent::MessageStop => EventModel::MessageStop,
            StreamEvent::Ping => EventModel::Ping,
            StreamEvent::Error { kind, message } => EventModel::Error {
                kind: kind@,
                message: message@,
            },
        }
    }
}

/// The object under a key.
pub open spec fn object_at(t: JsonTree, key: Seq<char>) -> Option<JsonTree> {
    match t.field(key) {
        Some(part) => if part is Object {
            Some(part)
        } else {
            None
        },
        None => None,
    }
}

/// The object under a key that says of which type it is.
pub open spec fn typed_at(t: JsonTree, key: Seq<char>) -> Option<JsonTree> {
    match object_at(t, key) {
        Some(part) => if part.text_field("type"@) is Some {
            Some(part)
        } else {
            None
        },
        None => None,
    }
}

/// The event that a value tells of by its own type, where it has what that type asks for.
pub open spec fn stream_event(t: JsonTree) -> Option<EventModel> {
    let index = t.whole_field("index"@);
    match t.text_field("type"@) {
        Some(kind) => if kind == "message_start"@ {
            match object_at(t, "message"@) {
                Some(message) => Some(EventModel::MessageStart { message }),
                None => None,
            }
        } else if kind == "content_block_start"@ {
            match (index, typed_at(t, "content_block"@)) {
                (Some(index), Some(content_block)) => Some(
                    EventModel::ContentBlockStart { index, content_block },
                ),
                _ => None,
            }
        } else if kind == "content_block_delta"@ {
            match (index, typed_at(t, "delta"@)) {
                (Some(index), Some(delta)) => Some(EventModel::ContentBlockDelta { index, delta }),
                _ => None,
            }
        } else if kind == "content_block_stop"@ {
            match index {
                Some(index) => Some(EventModel::ContentBlockStop { index }),
                None => None,
            }
        } else if kind == "message_delta"@ {
            match (object_at(t, "delta"@), t.field("usage"@)) {
                (Some(delta), None) => Some(EventModel::MessageDelta { delta, usage: None }),
                (Some(delta), Some(JsonTree::Null)) => Some(
                    EventModel::MessageDelta { delta, usage: None },
                ),
                (Some(delta), Some(JsonTree::Object(u))) => Some(
                    EventModel::MessageDelta { delta, usage: Some(JsonTree::Object(u)) },
                ),
                _ => None,
            }
        } else if kind == "message_stop"@ {
            Some(EventModel::MessageStop)
        } else if kind == "ping"@ {
            Some(EventModel::Ping)
        } else if kind == "error"@ {
            match object_at(t, "error"@) {
                Some(e) => match (e.text_field("type"@), e.text_field("message"@)) {
                    (Some(kind), Some(message)) => Some(EventModel::Error { kind, message }),
                    _ => None,
                },
                None => None,
            }
        } else {
            None
        },
        None => None,
    }
}

fn object_under(v: &Json, key: &str) -> (r: Option<Json>)
    ensures
        match r {
            Some(part) => object_at(v@, key@) == Some(part@),
            None => object_at(v@, key@) is None,
        },
{
    match v.get(key) {
        Some(part) => match part {
            Json::Object(_) => Some(part.copy()),
            _ => None,
        },
        None => None,
    }
}

fn typed_under(v: &Json, key: &str) -> (r: Option<Json>)
    ensures
        match r {
            Some(part) => typed_at(v@, key@) == Some(part@),
            None => typed_at(v@, key@) is None,
        },
{
    match object_under(v, key) {
        Some(part) => match part.get_text("type") {
            Some(_) => Some(part),
            None => None,
        },
        None => None,
    }
}

/// The event that a value tells of.
pub fn into_stream_event(v: &Json) -> (r: Option<StreamEvent>)
    ensures
        match r {
            Some(e) => stream_event(v@) == Some(e@),
            None => stream_event(v@) is None,
        },
{
    let kind = match v.get_text("type") {
        Some(kind) => kind,
        None => return None,
    };
    let kind = kind.as_str();
    let index = v.get_whole("index");
    if text::same(kind, "message_start") {
        match object_under(v, "message") {
            Some(message) => Some(StreamEvent::MessageStart { message }),
            None => None,
        }
    } else if text::same(kind, "content_block_start") {
        match (index, typed_under(v, "content_block")) {
            (Some(index), Some(content_block)) => Some(
                StreamEvent::ContentBlockStart { index, content_block },
            ),
            _ => None,
        }
    } else if text::same(kind, "content_block_delta") {
        match (index, typed_under(v, "delta")) {
            (Some(index), Some(delta)) => Some(StreamEvent::ContentBlockDelta { index, delta }),
            _ => None,
        }
    } else if text::same(kind, "content_block_stop") {
        match index {
            Some(index) => Some(StreamEvent::ContentBlockStop { index }),
            None => None,
        }
    } else if text::same(kind, "message_delta") {
        let delta = match object_under(v, "delta") {
            Some(delta) => delta,
            None => return None,
        };
        match v.get("usage") {
            None => Some(StreamEvent::MessageDelta { delta, usage: None }),
            Some(u) => match u {
                Json::Null => Some(StreamEvent::MessageDelta { delta, usage: None }),
                Json::Object(_) => Some(
                    StreamEvent::MessageDelta { delta, usage: Some(u.copy()) },
                ),
                _ => None,
            },
        }
    } else if text::same(kind, "message_stop") {
        Some(StreamEvent::MessageStop)
    } else if text::same(kind, "ping") {
        Some(StreamEvent::Ping)
    } else if text::same(kind, "error") {
        match object_under(v, "error") {
            Some(e) => match (e.get_text("type"), e.get_text("message")) {
                (Some(kind), Some(message)) => Some(StreamEvent::Error { kind, message }),
                _ => None,
            },
            None => None,
        }
    } else {
        None
    }
}

/// Reads the data of an event. One of an unknown type tells of nothing; data that is no
/// JSON, or lacks what its own type asks for, is refused.
pub fn parse_sse_event(event_type: &str, data: &str) -> (r: Result<
    Option<StreamEvent>,
    JsonError,
>)
    ensures
        match r {
            Ok(Some(e)) => known_event(event_type@) && json::read(data@) is Some && stream_event(
                json::read(data@)->Some_0,
            ) == Some(e@),
            Ok(None) => !known_event(event_type@),
            Err(e) => known_event(event_type@) && match json::read(data@) {
                Some(t) => stream_event(t) is None && e.message@ == "not an event of a stream"@,
                None => true,
            },
        },
{
    if text::same(event_type, "message_start") || text::same(event_type, "content_block_start")
        || text::same(event_type, "content_block_delta") || text::same(
        event_type,
        "content_block_stop",
    ) || text::same(event_type, "message_delta") || text::same(event_type, "message_stop")
        || text::same(event_type, "ping") || text::same(event_type, "error") {
        match json::parse(data) {
            Ok(j) => match into_stream_event(&j) {
                Some(e) => Ok(Some(e)),
                None => Err(JsonError { message: "not an event of a stream".to_string() }),
            },
            Err(e) => Err(e),
        }
    } else {
        Ok(None)
    }
}

/// What was read of an event so far.
pub struct SseReader {
    pub event: Option<String>,
    pub data: String,
}

/// What was read of an event so far.
#[verifier::ext_equal]
pub struct SseModel {
    pub event: Option<Seq<char>>,
    pub data: Seq<char>,
}

/// An event: its type and its data.
pub struct SseFrame {
    pub event: String,
    pub data: String,
}

impl View for SseReader {
    type V = SseModel;

    open spec fn view(&self) -> SseModel {
        SseModel { event: text::opt_view(self.event), data: self.data@ }
    }
}

/// A reader that has read nothing of an event.
pub open spec fn fresh_reader() -> SseModel {
    SseModel { event: None, data: seq![] }
}

/// What was read of an event after one more line.
pub open spec fn after_line(st: SseModel, line: Seq<char>) -> SseModel {
    if text::begins_with(line, "event: "@) {
        SseModel { event: Some(line.skip(7)), data: seq![] }
    } else if text::begins_with(line, "data: "@) {
        SseModel { data: st.data + line.skip(6), ..st }
    } else if line.len() == 0 && st.event is Some {
        fresh_reader()
    } else {
        st
    }
}

/// The event that a line ends: an empty line ends the one that was begun.
pub open spec fn ended_by(st: SseModel, line: Seq<char>) -> Option<(Seq<char>, Seq<char>)> {
    if line.len() == 0 {
        match st.event {
            Some(t) => Some((t, st.data)),
            None => None,
        }
    } else {
        None
    }
}

/// What the lines of an answer leave in a reader.
pub open spec fn after_lines(st: SseModel, lines: Seq<Seq<char>>) -> SseModel
    decreases lines.len(),
{
    if lines.len() == 0 {
        st
    } else {
        after_line(after_lines(st, lines.drop_last()), lines.last())
    }
}

/// The events in the lines of an answer.
pub open spec fn events_in(st: SseModel, lines: Seq<Seq<char>>) -> Seq<(Seq<char>, Seq<char>)>
    decreases lines.len(),
{
    if lines.len() == 0 {
        seq![]
    } else {
        let before = events_in(st, lines.drop_last());
        match ended_by(after_lines(st, lines.drop_last()), lines.last()) {
            Some(e) => before.push(e),
            None => before,
        }
    }
}

/// What an event hands on: what its data tells of, where its type is known and the data
/// can be read.
pub open spec fn handed_on(e: Option<(Seq<char>, Seq<char>)>) -> Option<EventModel> {
    match e {
        Some((t, data)) => match json::read(data) {
            Some(j) => if known_event(t) {
                stream_event(j)
            } else {
                None
            },
            None => None,
        },
        None => None,
    }
}

impl SseReader {
    /// A reader that has read nothing.
    pub fn new() -> (r: SseReader)
        ensures
            r@ == fresh_reader(),
    {
        let r = SseReader { event: None, data: String::new() };
        assert(r@ =~= fresh_reader());
        r
    }

    /// Reads one more line, and gives the event that it ends.
    pub fn read_line(&mut self, line: &str) -> (r: Option<SseFrame>)
        ensures
            final(self)@ == after_line(old(self)@, line@),
            match r {
                Some(f) => ended_by(old(self)@, line@) == Some((f.event@, f.data@)),
                None => ended_by(old(self)@, line@) is None,
            },
    {
        proof {
            reveal_strlit("event: ");
            reveal_strlit("data: ");
        }
        let v = text::chars_of(line);
        if text::starts_with(line, "event: ") {
            let event = text::text_of(&v, 7, v.len());
            assert(event@ =~= line@.skip(7));
            self.event = Some(event);
            self.data = String::new();
            assert(self@ =~= after_line(old(self)@, line@));
            None
        } else if text::starts_with(line, "data: ") {
            let more = text::text_of(&v, 6, v.len());
            assert(more@ =~= line@.skip(6));
            self.data = text::cat2(self.data.as_str(), more.as_str());
            None
        } else if v.len() == 0 {
            let mut event: Option<String> = None;
            std::mem::swap(&mut event, &mut self.event);
            match event {
                Some(event) => {
                    let mut data = String::new();
                    std::mem::swap(&mut data, &mut self.data);
                    assert(self@ =~= fresh_reader());
                    Some(SseFrame { event, data })
                },
                None => None,
            }
        } else {
            None
        }
    }

    /// Reads one more line, and hands on the event that it ends.
    pub fn next_event(&mut self, line: &str) -> (r: Option<StreamEvent>)
        ensures
            final(self)@ == after_line(old(self)@, line@),
            match r {
                Some(e) => handed_on(ended_by(old(self)@, line@)) == Some(e@),
                None => handed_on(ended_by(old(self)@, line@)) is None,
            },
    {
        match self.read_line(line) {
            Some(f) => match parse_sse_event(f.event.as_str(), f.data.as_str()) {
                Ok(e) => e,
                Err(_) => None,
            },
            None => None,
        }
    }

    /// Reads many lines, and gives the events in them.
    pub fn read_lines(&mut self, lines: &Vec<String>) -> (r: Vec<SseFrame>)
        ensures
            final(self)@ == after_lines(old(self)@, text::views(lines@)),
            frame_views(r@) == events_in(old(self)@, text::views(lines@)),
    {
        let ghost all = text::views(lines@);
        let ghost st = self@;
        let mut r: Vec<SseFrame> = Vec::new();
        let mut i: usize = 0;
        assert(frame_views(r@) =~= events_in(st, all.take(0)));
        while i < lines.len()
            invariant
                i <= lines.len(),
                all == text::views(lines@),
                self@ == after_lines(st, all.take(i as int)),
                frame_views(r@) == events_in(st, all.take(i as int)),
            decreases lines.len() - i,
        {
            let ghost was = frame_views(r@);
            proof {
                assert(all.take(i + 1).drop_last() =~= all.take(i as int));
                assert(all.take(i + 1).last() == lines@[i as int]@);
            }
            if let Some(f) = self.read_line(lines[i].as_str()) {
                r.push(f);
                assert(frame_views(r@) =~= was.push((f.event@, f.data@)));
            }
            i += 1;
        }
        assert(all.take(i as int) =~= all);
        r
    }
}

/// The events of a list.
pub open spec fn frame_views(v: Seq<SseFrame>) -> Seq<(Seq<char>, Seq<char>)> {
    Seq::new(v.len(), |i: int| (v[i].event@, v[i].data@))
}

// ---------------------------------------------------------------------------
// Laws
// ---------------------------------------------------------------------------

/// An event that is written as its type, its data and an empty line is read back,
/// whatever the reader had read before, and leaves nothing behind.
pub proof fn an_event_reads_back(st: SseModel, event: Seq<char>, data: Seq<char>)
    ensures
        events_in(st, seq!["event: "@ + event, "data: "@ + data, Seq::empty()]) == seq![
            (event, data),
        ],
        after_lines(st, seq!["event: "@ + event, "data: "@ + data, Seq::empty()])
            == fresh_reader(),
{
    reveal_strlit("event: ");
    reveal_strlit("data: ");
    let l1 = "event: "@ + event;
    let l2 = "data: "@ + data;
    let l3 = Seq::<char>::empty();
    let all = seq![l1, l2, l3];
    assert(l1.skip(7) =~= event);
    assert(l2.skip(6) =~= data);
    assert(l1.take(7) =~= "event: "@);
    assert(l2.take(6) =~= "data: "@);
    assert(text::begins_with(l1, "event: "@));
    assert(text::begins_with(l2, "data: "@));
    assert(l2[0] == 'd');
    assert(!text::begins_with(l2, "event: "@)) by {
        assert("event: "@[0] == 'e');
    }
    assert(!text::begins_with(l3, "event: "@));
    assert(!text::begins_with(l3, "data: "@));
    let two = all.drop_last();
    let one = two.drop_last();
    let none = one.drop_last();
    assert(two =~= seq![l1, l2]);
    assert(one =~= seq![l1]);
    assert(none =~= Seq::<Seq<char>>::empty());
    assert(after_lines(st, none) == st);
    assert(after_lines(st, one) == after_line(st, l1));
    assert(after_lines(st, two) == after_line(after_line(st, l1), l2));
    assert(Seq::<char>::empty() + data =~= data);
    assert(after_lines(st, two) == (SseModel { event: Some(event), data }));
    assert(events_in(st, none) =~= seq![]);
    assert(events_in(st, one) =~= seq![]);
    assert(events_in(st, two) =~= seq![]);
    assert(events_in(st, all) =~= seq![(event, data)]);
}

/// Lines that are no part of an event are passed over.
pub proof fn other_lines_are_passed_over(st: SseModel, line: Seq<char>)
    requires
        line.len() > 0,
        !text::begins_with(line, "event: "@),
        !text::begins_with(line, "data: "@),
    ensures
        after_line(st, line) == st,
        ended_by(st, line) is None,
{
}

/// Reading some lines and then some more is reading them all.
pub proof fn reading_goes_on(st: SseModel, first: Seq<Seq<char>>, second: Seq<Seq<char>>)
    ensures
        after_lines(st, first + second) == after_lines(after_lines(st, first), second),
        events_in(st, first + second) == events_in(st, first) + events_in(
            after_lines(st, first),
            second,
        ),
    decreases second.len(),
{
    if second.len() == 0 {
        assert(first + second =~= first);
        assert(events_in(st, first) + events_in(after_lines(st, first), second) =~= events_in(
            st,
            first,
        ));
    } else {
        reading_goes_on(st, first, second.drop_last());
        assert((first + second).drop_last() =~= first + second.drop_last());
        assert((first + second).last() == second.last());
        assert(events_in(st, first + second) =~= events_in(st, first) + events_in(
            after_lines(st, first),
            second,
        ));
    }
}

/// What the user says goes last in a request, as said by the user; what was said before
/// goes before it, in its order and unchanged.
pub proof fn the_question_comes_last(
    p: AnthropicProvider,
    call: ApiCall,
    user_message: Seq<char>,
    history: Seq<MessageModel>,
    system_prompt: Option<Seq<char>>,
)
    requires
        says(p, call, user_message, history, system_prompt),
    ensures
        ({
            let sent = call.request.messages@;
            &&& sent.len() == history.len() + 1
            &&& sent[history.len() as int]@.role == "user"@
            &&& sent[history.len() as int]@.content == ContentModel::Text(user_message)
            &&& forall|i: int| 0 <= i < history.len() ==> (#[trigger] sent[i])@ == history[i]
        }),
{
    let sent = call.request.messages@;
    let want = history.push(
        MessageModel { role: "user"@, content: ContentModel::Text(user_message) },
    );
    assert(messages::message_views(sent) == want);
    assert(sent.len() == want.len());
    assert forall|i: int| 0 <= i < sent.len() implies (#[trigger] sent[i])@ == want[i] by {
        assert(messages::message_views(sent)[i] == sent[i]@);
    }
}

/// The key goes with every request, and so does the name of the session where there is
/// one: under one header where the answer is streamed, under another where it is not.
pub proof fn requests_carry_their_key(call: ApiCall, api_key: Seq<char>)
    ensures
        headers_for(call, api_key).contains(("x-api-key"@, api_key)),
        headers_for(call, api_key).contains(("anthropic-version"@, "2023-06-01"@)),
        headers_for(call, api_key).contains(("Content-Type"@, "application/json"@)),
        headers_for(call, api_key).contains(
            ("anthropic-beta"@, "interleaved-thinking-2025-05-14"@),
        ),
        call.session_id matches Some(sid) ==> headers_for(call, api_key).contains(
            (
                if call.request.stream == Some(true) {
                    "X-Agent-Session-Id"@
                } else {
                    "agent-session-id"@
                },
                sid@,
            ),
        ),
        call.session_id is None ==> headers_for(call, api_key).len() == 4,
{
    let h = headers_for(call, api_key);
    assert(h[0] == ("Content-Type"@, "application/json"@));
    assert(h[1] == ("x-api-key"@, api_key));
    assert(h[2] == ("anthropic-version"@, "2023-06-01"@));
    assert(h[3] == ("anthropic-beta"@, "interleaved-thinking-2025-05-14"@));
    if let Some(sid) = call.session_id {
        assert(h.len() == 5);
        assert(h.contains(h[4]));
    }
}

/// A limit on tokens that is written down is the limit; without one that can be read it is
/// thirty-two thousand.
pub proof fn the_limit_is_read(n: u32)
    ensures
        limit_in(Some(text::decimal(n as nat))) == n,
        limit_in(None) == 32000,
        limit_in(Some(Seq::empty())) == 32000,
{
    text::numbers_read_back(n as nat, u32::MAX as nat);
}

/// What is handed on of an event that comes as its type, its data and an empty line.
pub open spec fn received(st: SseModel, event: Seq<char>, data: Seq<char>) -> Option<EventModel> {
    handed_on(
        ended_by(
            after_line(after_line(st, "event: "@ + event), "data: "@ + data),
            Seq::empty(),
        ),
    )
}

/// An event that comes as its type, its data and an empty line ends with that line.
proof fn the_empty_line_ends(st: SseModel, event: Seq<char>, data: Seq<char>)
    ensures
        ended_by(
            after_line(after_line(st, "event: "@ + event), "data: "@ + data),
            Seq::empty(),
        ) == Some((event, data)),
{
    reveal_strlit("event: ");
    reveal_strlit("data: ");
    let l1 = "event: "@ + event;
    let l2 = "data: "@ + data;
    assert(l1.skip(7) =~= event);
    assert(l2.skip(6) =~= data);
    assert(l1.subrange(0, 7) =~= "event: "@);
    assert(l2.subrange(0, 6) =~= "data: "@);
    assert(text::begins_with(l1, "event: "@));
    assert(text::begins_with(l2, "data: "@));
    assert(!text::begins_with(l2, "event: "@)) by {
        assert(l2[0] == 'd');
        assert("event: "@[0] == 'e');
        if text::begins_with(l2, "event: "@) {
            assert(l2.subrange(0, 7)[0] == "event: "@[0]);
        }
    }
    assert(Seq::<char>::empty() + data =~= data);
}

/// The names of the types of events differ.
proof fn event_names_differ()
    ensures
        "message_start"@ != "content_block_start"@,
        "message_start"@ != "content_block_delta"@,
        "message_start"@ != "content_block_stop"@,
        "message_start"@ != "message_delta"@,
        "message_start"@ != "message_stop"@,
        "message_start"@ != "ping"@,
        "message_start"@ != "error"@,
        "content_block_start"@ != "content_block_delta"@,
        "content_block_start"@ != "content_block_stop"@,
        "content_block_start"@ != "message_delta"@,
        "content_block_start"@ != "message_stop"@,
        "content_block_start"@ != "ping"@,
        "content_block_start"@ != "error"@,
        "content_block_delta"@ != "content_block_stop"@,
        "content_block_delta"@ != "message_delta"@,
        "content_block_delta"@ != "message_stop"@,
        "content_block_delta"@ != "ping"@,
        "content_block_delta"@ != "error"@,
        "content_block_stop"@ != "message_delta"@,
        "content_block_stop"@ != "message_stop"@,
        "content_block_stop"@ != "ping"@,
        "content_block_stop"@ != "error"@,
        "message_delta"@ != "message_stop"@,
        "message_delta"@ != "ping"@,
        "message_delta"@ != "error"@,
        "message_stop"@ != "ping"@,
        "message_stop"@ != "error"@,
        "ping"@ != "error"@,
{
    reveal_strlit("message_start");
    reveal_strlit("content_block_start");
    reveal_strlit("content_block_delta");
    reveal_strlit("content_block_stop");
    reveal_strlit("message_delta");
    reveal_strlit("message_stop");
    reveal_strlit("ping");
    reveal_strlit("error");
    assert("message_start"@.len() == 13);
    assert("content_block_start"@.len() == 19);
    assert("content_block_delta"@.len() == 19);
    assert("content_block_stop"@.len() == 18);
    assert("message_delta"@.len() == 13);
    assert("message_stop"@.len() == 12);
    assert("ping"@.len() == 4);
    assert("error"@.len() == 5);
    assert("message_start"@[8] == 's' && "message_delta"@[8] == 'd');
    assert("content_block_start"@[14] == 's' && "content_block_delta"@[14] == 'd');
}

/// The begin of an answer is handed on with the message that begins.
pub proof fn the_begin_of_an_answer_is_handed_on(
    st: SseModel,
    data: Seq<char>,
    t: JsonTree,
    message: JsonTree,
)
    requires
        json::read(data) == Some(t),
        t.text_field("type"@) == Some("message_start"@),
        t.field("message"@) == Some(message),
        message is Object,
    ensures
        received(st, "message_start"@, data) == Some(EventModel::MessageStart { message }),
{
    the_empty_line_ends(st, "message_start"@, data);
    event_names_differ();
}

/// The begin of a part of an answer is handed on with its place and what begins.
pub proof fn the_begin_of_a_part_is_handed_on(
    st: SseModel,
    data: Seq<char>,
    t: JsonTree,
    index: u64,
    content_block: JsonTree,
)
    requires
        json::read(data) == Some(t),
        t.text_field("type"@) == Some("content_block_start"@),
        t.whole_field("index"@) == Some(index),
        t.field("content_block"@) == Some(content_block),
        content_block is Object,
        content_block.text_field("type"@) is Some,
    ensures
        received(st, "content_block_start"@, data) == Some(EventModel::ContentBlockStart { index, content_block }),
{
    the_empty_line_ends(st, "content_block_start"@, data);
    event_names_differ();
}

/// More of a part of an answer is handed on with its place and what came.
pub proof fn more_of_a_part_is_handed_on(
    st: SseModel,
    data: Seq<char>,
    t: JsonTree,
    index: u64,
    delta: JsonTree,
)
    requires
        json::read(data) == Some(t),
        t.text_field("type"@) == Some("content_block_delta"@),
        t.whole_field("index"@) == Some(index),
        t.field("delta"@) == Some(delta),
        delta is Object,
        delta.text_field("type"@) is Some,
    ensures
        received(st, "content_block_delta"@, data) == Some(EventModel::ContentBlockDelta { index, delta }),
{
    the_empty_line_ends(st, "content_block_delta"@, data);
    event_names_differ();
}

/// The end of a part of an answer is handed on with its place.
pub proof fn the_end_of_a_part_is_handed_on(
    st: SseModel,
    data: Seq<char>,
    t: JsonTree,
    index: u64,
)
    requires
        json::read(data) == Some(t),
        t.text_field("type"@) == Some("content_block_stop"@),
        t.whole_field("index"@) == Some(index),
    ensures
        received(st, "content_block_stop"@, data) == Some(EventModel::ContentBlockStop { index }),
{
    the_empty_line_ends(st, "content_block_stop"@, data);
    event_names_differ();
}

/// Why an answer ends is handed on, with what it took.
pub proof fn why_an_answer_ends_is_handed_on(
    st: SseModel,
    data: Seq<char>,
    t: JsonTree,
    delta: JsonTree,
    usage: JsonTree,
)
    requires
        json::read(data) == Some(t),
        t.text_field("type"@) == Some("message_delta"@),
        t.field("delta"@) == Some(delta),
        delta is Object,
        t.field("usage"@) == Some(usage),
        usage is Object,
    ensures
        received(st, "message_delta"@, data) == Some(EventModel::MessageDelta { delta, usage: Some(usage) }),
{
    the_empty_line_ends(st, "message_delta"@, data);
    event_names_differ();
}

/// The end of an answer is handed on.
pub proof fn the_end_of_an_answer_is_handed_on(
    st: SseModel,
    data: Seq<char>,
    t: JsonTree,
)
    requires
        json::read(data) == Some(t),
        t.text_field("type"@) == Some("message_stop"@),
    ensures
        received(st, "message_stop"@, data) == Some(EventModel::MessageStop),
{
    the_empty_line_ends(st, "message_stop"@, data);
    event_names_differ();
}

/// A sign of life is handed on.
pub proof fn a_sign_of_life_is_handed_on(
    st: SseModel,
    data: Seq<char>,
    t: JsonTree,
)
    requires
        json::read(data) == Some(t),
        t.text_field("type"@) == Some("ping"@),
    ensures
        received(st, "ping"@, data) == Some(EventModel::Ping),
{
    the_empty_line_ends(st, "ping"@, data);
    event_names_differ();
}

/// A failure is handed on with its type and its message.
pub proof fn a_failure_is_handed_on(
    st: SseModel,
    data: Seq<char>,
    t: JsonTree,
    error: JsonTree,
    kind: Seq<char>,
    message: Seq<char>,
)
    requires
        json::read(data) == Some(t),
        t.text_field("type"@) == Some("error"@),
        t.field("error"@) == Some(error),
        error is Object,
        error.text_field("type"@) == Some(kind),
        error.text_field("message"@) == Some(message),
    ensures
        received(st, "error"@, data) == Some(EventModel::Error { kind, message }),
{
    the_empty_line_ends(st, "error"@, data);
    event_names_differ();
}

/// An event of another type hands nothing on, whatever its data.
pub proof fn other_events_are_not_handed_on(st: SseModel, event: Seq<char>, data: Seq<char>)
    requires
        event != "message_start"@,
        event != "content_block_start"@,
        event != "content_block_delta"@,
        event != "content_block_stop"@,
        event != "message_delta"@,
        event != "message_stop"@,
        event != "ping"@,
        event != "error"@,
    ensures
        received(st, event, data) is None,
{
    the_empty_line_ends(st, event, data);
}

/// An event whose data cannot be read, or says no type, hands nothing on.
pub proof fn broken_events_are_not_handed_on(st: SseModel, event: Seq<char>, data: Seq<char>)
    requires
        json::read(data) matches Some(t) ==> t.text_field("type"@) is None,
    ensures
        received(st, event, data) is None,
{
    the_empty_line_ends(st, event, data);
}

/// Without tools none are offered; with thinking, and only then, the temperature is one.
pub proof fn requests_offer_what_there_is(
    tools: Vec<ToolDefinition>,
    thinking: Option<ThinkingConfig>,
)
    ensures
        tools@.len() > 0 ==> tools_for(tools) == Some(tools),
        tools@.len() == 0 ==> tools_for(tools) is None,
        thinking is Some ==> temperature_for(thinking) == Some(1u32),
        thinking is None ==> temperature_for(thinking) is None,
{
}

/// The service is reached where its user says, or else where it usually is.
pub proof fn the_service_is_reached(auth: AuthConfig)
    ensures
        auth.base_url is None ==> auth.url() == "https://api.anthropic.com/v1/messages"@,
        (auth.base_url matches Some(url) ==> auth.url() == url@),
{
}

} // verus!
