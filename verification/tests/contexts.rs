use picrust::agent_config::{AgentConfig, TurnRetryConfig};
use picrust::anthropic::ThinkingConfig;
use picrust::context::{AgentContext, ResourceMap};
use picrust::json;
use picrust::messages::{
    append_to_last_message, inject_system_reminder, prepend_to_first_user_message, ContentBlock,
    FnInjection, InjectionChain, Message, MessageContent,
};
use std::any::{Any, TypeId};
use std::sync::Arc;

type Resource = Box<dyn Any + Send + Sync>;

#[derive(Debug, Clone, PartialEq)]
struct TestResource {
    value: i32,
}

#[derive(Debug)]
struct AnotherResource {
    name: String,
}

fn kind<T: 'static>() -> TypeId {
    TypeId::of::<T>()
}

fn put<T: Send + Sync + 'static>(resources: &mut ResourceMap<Resource>, value: T) {
    resources.insert(kind::<T>(), Box::new(value));
}

fn value(r: &Arc<Resource>) -> i32 {
    r.downcast_ref::<TestResource>().unwrap().value
}

#[test]
fn test_root_context() {
    let ctx: AgentContext<Resource> = AgentContext::new(
        "session_123",
        "coder",
        "My Coder Agent",
        "An agent that writes code",
    );
    assert_eq!(ctx.session_id, "session_123");
    assert_eq!(ctx.agent_type, "coder");
    assert_eq!(ctx.name, "My Coder Agent");
    assert_eq!(ctx.description, "An agent that writes code");
    assert!(!ctx.is_subagent());
    assert_eq!(ctx.current_turn, 0);
    assert!(ctx.current_tool_use_id.is_none());
}

#[test]
fn test_subagent_context() {
    let ctx: AgentContext<Resource> = AgentContext::new_subagent(
        "sub_session",
        "researcher",
        "Research Assistant",
        "Finds information",
        "parent_session",
        "tool_456",
    );
    assert!(ctx.is_subagent());
    assert_eq!(ctx.name, "Research Assistant");
    assert_eq!(ctx.parent_session_id, Some("parent_session".into()));
    assert_eq!(ctx.parent_tool_use_id, Some("tool_456".into()));
}

#[test]
fn test_with_tool_use_id() {
    let ctx: AgentContext<Resource> =
        AgentContext::new("session", "test", "Test Agent", "For testing");
    let ctx_with_tool = ctx.with_tool_use_id("tool_789");

    assert!(ctx.current_tool_use_id.is_none());
    assert_eq!(ctx_with_tool.current_tool_use_id, Some("tool_789".into()));
}

#[test]
fn test_metadata() {
    let mut ctx: AgentContext<Resource> =
        AgentContext::new("session", "test", "Test", "Test agent");

    ctx.set_metadata("key1", json::text_value("value1"));
    ctx.set_metadata("key2", json::whole_value(42));

    assert_eq!(ctx.get_metadata_str("key1"), Some("value1"));
    assert_eq!(ctx.get_metadata("key2").and_then(|v| v.as_whole()), Some(42));
    assert!(ctx.has_metadata("key1"));
    assert!(!ctx.has_metadata("nonexistent"));

    ctx.remove_metadata("key1");
    assert!(!ctx.has_metadata("key1"));
}

#[test]
fn test_turn_counter() {
    let mut ctx: AgentContext<Resource> =
        AgentContext::new("session", "test", "Test", "Test agent");
    assert_eq!(ctx.current_turn, 0);

    ctx.next_turn();
    assert_eq!(ctx.current_turn, 1);

    ctx.next_turn();
    assert_eq!(ctx.current_turn, 2);
}

#[test]
fn metadata_goes_along_with_a_copy() {
    let mut ctx: AgentContext<Resource> = AgentContext::default();
    ctx.set_metadata("a", json::text_value("1"));
    ctx.set_metadata("b", json::text_value("2"));
    ctx.set_metadata("a", json::text_value("3"));
    let mut other = ctx.with_tool_use_id("t");
    assert_eq!(other.get_metadata_str("a"), Some("3"));
    assert_eq!(other.get_metadata_str("b"), Some("2"));
    assert_eq!(other.session_id, "unknown");
    assert_eq!(other.name, "Unnamed Agent");
    assert_eq!(other.description, "No description");
    other.clear_tool_use_id();
    assert!(other.current_tool_use_id.is_none());
    assert!(ctx.get_metadata("c").is_none());
    assert!(ctx.remove_metadata("c").is_none());
    ctx.set_metadata("n", json::whole_value(1));
    assert_eq!(ctx.get_metadata_str("n"), None);
}

#[test]
fn test_resource_map_insert_get() {
    let mut resources = ResourceMap::new();

    put(&mut resources, TestResource { value: 42 });
    put(&mut resources, AnotherResource { name: "test".to_string() });

    let test_res = resources.get(&kind::<TestResource>()).unwrap();
    assert_eq!(value(&test_res), 42);

    let another_res = resources.get(&kind::<AnotherResource>()).unwrap();
    assert_eq!(another_res.downcast_ref::<AnotherResource>().unwrap().name, "test");
}

#[test]
fn test_resource_map_missing() {
    let resources: ResourceMap<Resource> = ResourceMap::new();

    assert!(resources.get(&kind::<TestResource>()).is_none());
    assert!(!resources.contains(&kind::<TestResource>()));
}

#[test]
fn test_resource_map_replace() {
    let mut resources = ResourceMap::new();

    put(&mut resources, TestResource { value: 1 });
    put(&mut resources, TestResource { value: 2 });

    let res = resources.get(&kind::<TestResource>()).unwrap();
    assert_eq!(value(&res), 2);
}

#[test]
fn test_resource_map_remove() {
    let mut resources = ResourceMap::new();

    put(&mut resources, TestResource { value: 42 });
    assert!(resources.contains(&kind::<TestResource>()));

    let removed = resources.remove(&kind::<TestResource>()).unwrap();
    assert_eq!(value(&removed), 42);
    assert!(!resources.contains(&kind::<TestResource>()));
}

#[test]
fn test_context_resources() {
    let mut ctx: AgentContext<Resource> =
        AgentContext::new("session", "test", "Test", "Test agent");

    ctx.insert_resource(kind::<TestResource>(), Box::new(TestResource { value: 100 }));

    assert!(ctx.has_resource(&kind::<TestResource>()));
    let res = ctx.get_resource(&kind::<TestResource>()).unwrap();
    assert_eq!(value(&res), 100);

    let ctx2 = ctx.copy();
    let res2 = ctx2.get_resource(&kind::<TestResource>()).unwrap();
    assert_eq!(value(&res2), 100);

    assert!(Arc::ptr_eq(&res, &res2));
}

#[test]
fn test_resource_map_len() {
    let mut resources = ResourceMap::new();
    assert!(resources.is_empty());
    assert_eq!(resources.len(), 0);

    put(&mut resources, TestResource { value: 1 });
    assert!(!resources.is_empty());
    assert_eq!(resources.len(), 1);

    put(&mut resources, AnotherResource { name: "x".to_string() });
    assert_eq!(resources.len(), 2);

    resources.clear();
    assert!(resources.is_empty());
}

#[test]
fn shared_resources_stay_shared() {
    let mut ctx: AgentContext<Resource> = AgentContext::default();
    let shared: Arc<Resource> = Arc::new(Box::new(TestResource { value: 7 }));
    ctx.insert_resource_arc(kind::<TestResource>(), shared.clone());
    assert!(Arc::ptr_eq(&ctx.get_resource(&kind::<TestResource>()).unwrap(), &shared));
    assert!(Arc::ptr_eq(&ctx.remove_resource(&kind::<TestResource>()).unwrap(), &shared));
    assert!(ctx.remove_resource(&kind::<TestResource>()).is_none());
    assert!(!ctx.has_resource(&kind::<TestResource>()));
}

// ---------------------------------------------------------------------------
// Setups and injections
// ---------------------------------------------------------------------------

#[test]
fn test_agent_config_defaults() {
    let config: AgentConfig<(), (), ()> = AgentConfig::default();
    assert!(!config.debug_enabled);
    assert!(config.auto_save_session);
    assert!(config.auto_name_conversation);
    assert_eq!(config.max_tool_iterations, 100);
}

#[test]
fn test_agent_config_with_debug() {
    let config: AgentConfig<(), (), ()> = AgentConfig::new().with_debug(true);
    assert!(config.debug_enabled);
}

#[test]
fn setups_are_built_step_by_step() {
    let config: AgentConfig<(), (), &str> = AgentConfig::new()
        .with_max_tool_iterations(50)
        .with_thinking(16000)
        .with_streaming(true)
        .with_auto_save(false)
        .with_auto_name(false)
        .with_prompt_caching(false)
        .with_hook_short_circuit(true)
        .with_dangerous_skip_permissions(true)
        .with_naming_llm("small")
        .with_turn_retry(TurnRetryConfig { enabled: false, max_retries: 5, retry_delay_secs: 10 });
    assert_eq!(config.max_tool_iterations, 50);
    assert_eq!(config.thinking, Some(ThinkingConfig { budget_tokens: 16000 }));
    assert!(config.streaming_enabled);
    assert!(!config.auto_save_session);
    assert!(!config.auto_name_conversation);
    assert!(!config.enable_prompt_caching);
    assert!(config.hook_short_circuit);
    assert!(config.dangerous_skip_permissions);
    assert_eq!(config.naming_llm, Some("small"));
    assert_eq!(config.turn_retry.max_retries, 5);
    assert!(config.tool_definitions().is_empty());
    assert_eq!(
        TurnRetryConfig::default(),
        TurnRetryConfig { enabled: true, max_retries: 3, retry_delay_secs: 15 }
    );
}

type Change = fn(&u8, Vec<Message>) -> Vec<Message>;

fn keep(_internals: &u8, messages: Vec<Message>) -> Vec<Message> {
    messages
}

fn remind(_internals: &u8, messages: Vec<Message>) -> Vec<Message> {
    let mut messages = messages;
    inject_system_reminder(&mut messages, "be brief");
    messages
}

fn greet(_internals: &u8, messages: Vec<Message>) -> Vec<Message> {
    let mut messages = messages;
    prepend_to_first_user_message(&mut messages, "Hello. ");
    messages
}

#[test]
fn test_injection_chain_empty() {
    let chain: InjectionChain<FnInjection<Change>> = InjectionChain::new();
    assert!(chain.is_empty());
    assert_eq!(chain.len(), 0);
}

#[test]
fn test_injection_chain_names() {
    let mut chain: InjectionChain<FnInjection<Change>> = InjectionChain::new();
    chain.add_fn("first".to_string(), keep);
    chain.add_fn("second".to_string(), keep);

    assert_eq!(chain.len(), 2);
    assert_eq!(chain.names::<u8>(), vec!["first", "second"]);
}

#[test]
fn injections_can_be_shared() {
    let shared = Arc::new(FnInjection::new("remind".to_string(), remind as Change));
    let mut one: InjectionChain<FnInjection<Change>> = InjectionChain::new();
    let mut two: InjectionChain<FnInjection<Change>> = InjectionChain::new();
    one.add_shared(shared.clone());
    two.add_shared(shared);
    two.add_fn("greet".to_string(), greet);
    assert_eq!(one.names::<u8>(), vec!["remind"]);
    assert_eq!(two.names::<u8>(), vec!["remind", "greet"]);
    let out = two.apply(&0u8, vec![Message::user("Hi")]);
    assert!(out[0].text().starts_with("Hello. Hi"));
}

#[test]
fn injections_apply_in_order() {
    let config: AgentConfig<FnInjection<Change>, (), ()> = AgentConfig::new()
        .with_injection_fn("greet".to_string(), greet as Change)
        .with_injection(FnInjection::new("remind".to_string(), remind as Change));
    let messages = vec![Message::user("Hi"), Message::assistant("Yes?")];
    let out = config.injections.apply(&0u8, messages);
    assert_eq!(out.len(), 2);
    assert_eq!(out[0].text(), "Hello. Hi");
    assert!(out[1].text().starts_with("Yes?"));
    let reminder = "\n<vibe-working-agent-system>\nbe brief\n</vibe-working-agent-system>";
    assert!(out[1].text().ends_with(reminder));
}

#[test]
fn text_goes_to_the_end_of_the_last_message() {
    let mut messages = vec![Message::user("a"), Message::user("b")];
    append_to_last_message(&mut messages, "!");
    assert_eq!(messages[0].text(), "a");
    assert_eq!(messages[1].text(), "b!");
    let mut none: Vec<Message> = Vec::new();
    append_to_last_message(&mut none, "!");
    assert!(none.is_empty());
}

#[test]
fn the_text_of_blocks_has_blanks_between() {
    let m = Message {
        role: "user".to_string(),
        content: MessageContent::Blocks(vec![
            ContentBlock::Text { text: "one".to_string() },
            ContentBlock::Other(json::text_value("x")),
            ContentBlock::Text { text: "two".to_string() },
        ]),
    };
    assert_eq!(m.text(), "one two");
}

#[test]
fn chains_and_resources_begin_empty() {
    let chain: InjectionChain<FnInjection<Change>> = InjectionChain::default();
    assert!(chain.injections.is_empty());
    let resources: ResourceMap<Resource> = ResourceMap::default();
    assert!(!resources.contains(&kind::<TestResource>()));
}
