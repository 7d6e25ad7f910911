//! How an agent is set up.

use vstd::prelude::*;

use crate::anthropic::{ThinkingConfig, ToolDefinition};
use crate::hooks::HookRegistry;
use crate::messages::{FnInjection, InjectionChain};

verus! {

/// Whether and how a turn is tried again that failed for want of a connection.
#[derive(Debug, Clone, Copy, PartialEq, Eq, Structural)]
pub struct TurnRetryConfig {
    pub enabled: bool,
    pub max_retries: u32,
    pub retry_delay_secs: u64,
}

impl Default for TurnRetryConfig {
    fn default() -> (r: TurnRetryConfig)
        ensures
            r == (TurnRetryConfig { enabled: true, max_retries: 3, retry_delay_secs: 15 }),
    {
        TurnRetryConfig { enabled: true, max_retries: 3, retry_delay_secs: 15 }
    }
}

/// How an agent is set up. `J` is what changes its messages, `H` what looks at its
/// steps, and `L` what names its conversations.
pub struct AgentConfig<J, H, L> {
    pub tools: Option<Vec<ToolDefinition>>,
    pub injections: InjectionChain<J>,
    /// How often tools may be used in a turn.
    pub max_tool_iterations: usize,
    pub auto_save_session: bool,
    pub debug_enabled: bool,
    pub streaming_enabled: bool,
    pub thinking: Option<ThinkingConfig>,
    pub hooks: Option<HookRegistry<H>>,
    pub auto_name_conversation: bool,
    pub enable_prompt_caching: bool,
    pub naming_llm: Option<L>,
    /// Whether the first no of a hook ends a round of hooks.
    pub hook_short_circuit: bool,
    /// Whether no permission is asked for.
    pub dangerous_skip_permissions: bool,
    pub turn_retry: TurnRetryConfig,
}

impl<J, H, L> AgentConfig<J, H, L> {
    /// The usual setup: no tools, no thinking, and permission is asked for.
    pub fn new() -> (r: AgentConfig<J, H, L>)
        ensures
            r.tools is None,
            r.injections@.len() == 0,
            r.max_tool_iterations == 100,
            r.auto_save_session,
            !r.debug_enabled,
            !r.streaming_enabled,
            r.thinking is None,
            r.hooks is None,
            r.auto_name_conversation,
            r.enable_prompt_caching,
            r.naming_llm is None,
            !r.hook_short_circuit,
            !r.dangerous_skip_permissions,
            r.turn_retry == (TurnRetryConfig {
                enabled: true,
                max_retries: 3,
                retry_delay_secs: 15,
            }),
    {
        AgentConfig {
            tools: None,
            injections: InjectionChain::new(),
            max_tool_iterations: 100,
            auto_save_session: true,
            debug_enabled: false,
            streaming_enabled: false,
            thinking: None,
            hooks: None,
            auto_name_conversation: true,
            enable_prompt_caching: true,
            naming_llm: None,
            hook_short_circuit: false,
            dangerous_skip_permissions: false,
            turn_retry: TurnRetryConfig::default(),
        }
    }

    /// The setup with tools.
    pub fn with_tools(self, tools: Vec<ToolDefinition>) -> (r: AgentConfig<J, H, L>)
        ensures
            r == (AgentConfig { tools: Some(tools), ..self }),
    {
        AgentConfig { tools: Some(tools), ..self }
    }

    /// The setup with other injections.
    pub fn with_injection_chain(self, injections: InjectionChain<J>) -> (r: AgentConfig<J, H, L>)
        ensures
            r == (AgentConfig { injections, ..self }),
    {
        AgentConfig { injections, ..self }
    }

    /// The setup with one more injection.
    pub fn with_injection(self, injection: J) -> (r: AgentConfig<J, H, L>)
        ensures
            r.injections@ == self.injections@.push(injection),
            r == (AgentConfig { injections: r.injections, ..self }),
    {
        let mut injections = self.injections;
        injections.add(injection);
        AgentConfig { injections, ..self }
    }

    /// The setup with a limit on how often tools may be used in a turn.
    pub fn with_max_tool_iterations(self, max: usize) -> (r: AgentConfig<J, H, L>)
        ensures
            r == (AgentConfig { max_tool_iterations: max, ..self }),
    {
        AgentConfig { max_tool_iterations: max, ..self }
    }

    /// The setup with or without saving after each turn.
    pub fn with_auto_save(self, auto_save: bool) -> (r: AgentConfig<J, H, L>)
        ensures
            r == (AgentConfig { auto_save_session: auto_save, ..self }),
    {
        AgentConfig { auto_save_session: auto_save, ..self }
    }

    /// The setup with or without a log for debugging.
    pub fn with_debug(self, enabled: bool) -> (r: AgentConfig<J, H, L>)
        ensures
            r == (AgentConfig { debug_enabled: enabled, ..self }),
    {
        AgentConfig { debug_enabled: enabled, ..self }
    }

    /// The setup with or without streamed answers.
    pub fn with_streaming(self, enabled: bool) -> (r: AgentConfig<J, H, L>)
        ensures
            r == (AgentConfig { streaming_enabled: enabled, ..self }),
    {
        AgentConfig { streaming_enabled: enabled, ..self }
    }

    /// The setup with thinking, on a budget of tokens.
    pub fn with_thinking(self, budget_tokens: u32) -> (r: AgentConfig<J, H, L>)
        ensures
            r == (AgentConfig { thinking: Some(ThinkingConfig { budget_tokens }), ..self }),
    {
        AgentConfig { thinking: Some(ThinkingConfig::enabled(budget_tokens)), ..self }
    }

    /// The setup with thinking.
    pub fn with_thinking_config(self, config: ThinkingConfig) -> (r: AgentConfig<J, H, L>)
        ensures
            r == (AgentConfig { thinking: Some(config), ..self }),
    {
        AgentConfig { thinking: Some(config), ..self }
    }

    /// The setup with hooks.
    pub fn with_hooks(self, hooks: HookRegistry<H>) -> (r: AgentConfig<J, H, L>)
        ensures
            r == (AgentConfig { hooks: Some(hooks), ..self }),
    {
        AgentConfig { hooks: Some(hooks), ..self }
    }

    /// The setup with or without names for conversations.
    pub fn with_auto_name(self, enabled: bool) -> (r: AgentConfig<J, H, L>)
        ensures
            r == (AgentConfig { auto_name_conversation: enabled, ..self }),
    {
        AgentConfig { auto_name_conversation: enabled, ..self }
    }

    /// The setup with something that names conversations.
    pub fn with_naming_llm(self, llm: L) -> (r: AgentConfig<J, H, L>)
        ensures
            r == (AgentConfig { naming_llm: Some(llm), ..self }),
    {
        AgentConfig { naming_llm: Some(llm), ..self }
    }

    /// The setup with or without a cache for prompts.
    pub fn with_prompt_caching(self, enabled: bool) -> (r: AgentConfig<J, H, L>)
        ensures
            r == (AgentConfig { enable_prompt_caching: enabled, ..self }),
    {
        AgentConfig { enable_prompt_caching: enabled, ..self }
    }

    /// The setup in which the first no of a hook ends a round of hooks, or not.
    pub fn with_hook_short_circuit(self, enabled: bool) -> (r: AgentConfig<J, H, L>)
        ensures
            r == (AgentConfig { hook_short_circuit: enabled, ..self }),
    {
        AgentConfig { hook_short_circuit: enabled, ..self }
    }

    /// The setup in which no permission is asked for, or it is.
    pub fn with_dangerous_skip_permissions(self, enabled: bool) -> (r: AgentConfig<J, H, L>)
        ensures
            r == (AgentConfig { dangerous_skip_permissions: enabled, ..self }),
    {
        AgentConfig { dangerous_skip_permissions: enabled, ..self }
    }

    /// The setup with another way to try turns again.
    pub fn with_turn_retry(self, config: TurnRetryConfig) -> (r: AgentConfig<J, H, L>)
        ensures
            r == (AgentConfig { turn_retry: config, ..self }),
    {
        AgentConfig { turn_retry: config, ..self }
    }

    /// The tools, where there are any.
    pub fn tool_definitions(&self) -> (r: &[ToolDefinition])
        ensures
            r@ == (match self.tools {
                Some(tools) => tools@,
                None => Seq::<ToolDefinition>::empty(),
            }),
    {
        match &self.tools {
            Some(tools) => tools.as_slice(),
            None => {
                let none: &[ToolDefinition] = &[];
                assert(none@ =~= Seq::empty());
                none
            },
        }
    }
}

impl<F, H, L> AgentConfig<FnInjection<F>, H, L> {
    /// The setup with one more injection, which is a function.
    pub fn with_injection_fn(self, name: String, func: F) -> (r: AgentConfig<
        FnInjection<F>,
        H,
        L,
    >)
        ensures
            r.injections@ == self.injections@.push((FnInjection { label: name, func })),
            r == (AgentConfig { injections: r.injections, ..self }),
    {
        let mut injections = self.injections;
        injections.add_fn(name, func);
        AgentConfig { injections, ..self }
    }
}

impl<J, H, L> Default for AgentConfig<J, H, L> {
    fn default() -> (r: AgentConfig<J, H, L>)
        ensures
            r.tools is None,
            r.injections@.len() == 0,
            r.max_tool_iterations == 100,
            r.auto_save_session,
            !r.debug_enabled,
            !r.streaming_enabled,
            r.thinking is None,
            r.hooks is None,
            r.auto_name_conversation,
            r.enable_prompt_caching,
            r.naming_llm is None,
            !r.hook_short_circuit,
            !r.dangerous_skip_permissions,
            r.turn_retry == (TurnRetryConfig {
                enabled: true,
                max_retries: 3,
                retry_delay_secs: 15,
            }),
    {
        AgentConfig::new()
    }
}

} // verus!
