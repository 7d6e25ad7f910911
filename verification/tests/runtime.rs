use picrust::context::AgentContext;
use picrust::errors::FrameworkError;
use picrust::internals::{AgentInternals, PermissionStep, ToolExecutor};
use picrust::json;
use picrust::output::{InputMessage, OutputChunk, ToolResult};
use picrust::permissions::{
    CheckResult, GlobalPermissions, GlobalRef, PermissionManager, PermissionRule, PermissionScope,
    SharedPermissions,
};
use picrust::runtime::{AgentHandle, AgentRuntime, SendFailure};
use picrust::sessions::{AgentSession, SessionStorage};
use picrust::state::AgentState;
use picrust::subagents::SubAgentManager;

type Internals = AgentInternals<(), AgentHandle>;

const GLOBAL: GlobalRef = GlobalRef { place: 0 };

fn create_test_rules() -> SharedPermissions {
    let mut shared = SharedPermissions::new();
    assert_eq!(shared.share(GlobalPermissions::new()), GLOBAL);
    shared
}

fn create_test_internals() -> Internals {
    AgentInternals::new(
        AgentContext::new("test-session", "test-agent", "Test Agent", "A test agent"),
        PermissionManager::new(GLOBAL, "test-agent"),
        AgentState::Idle,
    )
}

fn create_test_session(name: &str) -> AgentSession {
    let mut storage = SessionStorage::new();
    AgentSession::new_with_storage(
        name,
        "test-agent",
        "Test Agent",
        "A test agent",
        "",
        &mut storage,
    )
}

// ---------------------------------------------------------------------------
// Handles
// ---------------------------------------------------------------------------

#[test]
fn test_send_input() {
    let handle = AgentHandle::new("test-session");
    let msg = handle.send_input("Hello");
    assert!(matches!(msg, InputMessage::UserInput(s) if s == "Hello"));
}

#[test]
fn handle_test_interrupt() {
    let handle = AgentHandle::new("test-session");
    assert!(matches!(handle.interrupt(), InputMessage::Interrupt));
}

#[test]
fn test_shutdown() {
    let handle = AgentHandle::new("test-session");
    assert!(matches!(handle.shutdown(), InputMessage::Shutdown));
}

#[test]
fn handle_test_state() {
    let mut state = AgentState::Idle;
    assert!(AgentHandle::is_idle(&state));
    assert!(AgentHandle::is_running(&state));

    state = AgentState::Processing;
    assert!(AgentHandle::is_processing(&state));

    state = AgentState::Done;
    assert!(AgentHandle::is_done(&state));
    assert!(!AgentHandle::is_running(&state));

    state = AgentState::error("x");
    assert!(AgentHandle::is_error(&state));
    assert!(!AgentHandle::is_running(&state));
}

#[test]
fn test_session_id() {
    let handle = AgentHandle::new("test-session");
    assert_eq!(handle.session_id(), "test-session");
}

#[test]
fn test_send_permission_response() {
    let handle = AgentHandle::new("test-session");
    let msg = handle.send_permission_response("Bash", true, false);
    assert!(matches!(
        msg,
        InputMessage::PermissionResponse {
            tool_name,
            allowed: true,
            remember: false,
        } if tool_name == "Bash"
    ));
}

#[test]
fn other_messages_to_an_agent() {
    let handle = AgentHandle::new("s");
    let msg = handle.send_tool_result("t1", ToolResult { text: "ok".to_string(), is_error: false });
    assert!(matches!(
        msg,
        InputMessage::ToolResult { tool_use_id, result }
            if tool_use_id == "t1" && result.text == "ok" && !result.is_error
    ));
    let msg = handle.send_subagent_complete("sub", Some("done".to_string()));
    assert!(matches!(
        msg,
        InputMessage::SubAgentComplete { session_id, result }
            if session_id == "sub" && result == Some("done".to_string())
    ));
}

#[test]
fn messages_that_do_not_arrive() {
    assert!(AgentHandle::send(true).is_ok());
    assert!(matches!(AgentHandle::send(false), Err(FrameworkError::ChannelClosed)));
    assert!(AgentHandle::try_send(Ok(())).is_ok());
    assert!(matches!(
        AgentHandle::try_send(Err(SendFailure::Full)),
        Err(FrameworkError::SendError(s)) if s == "Channel full"
    ));
    assert!(matches!(
        AgentHandle::try_send(Err(SendFailure::Closed)),
        Err(FrameworkError::ChannelClosed)
    ));
}

// ---------------------------------------------------------------------------
// Internals
// ---------------------------------------------------------------------------

#[test]
fn test_send() {
    let mut internals = create_test_internals();

    internals.send_text("Hello");

    let out = internals.take_outbox();
    assert_eq!(out.len(), 1);
    assert!(matches!(&out[0], OutputChunk::TextDelta(s) if s == "Hello"));
    assert!(internals.take_outbox().is_empty());
}

#[test]
fn internals_test_state() {
    let mut internals = create_test_internals();

    assert!(matches!(internals.state(), AgentState::Idle));

    internals.set_processing();
    assert!(matches!(internals.state(), AgentState::Processing));

    let out = internals.take_outbox();
    assert!(matches!(&out[0], OutputChunk::StateChange(AgentState::Processing)));
}

#[test]
fn test_set_state_silent() {
    let mut internals = create_test_internals();

    internals.set_state_silent(AgentState::Processing);
    assert!(matches!(internals.state(), AgentState::Processing));

    assert!(internals.take_outbox().is_empty());
}

#[test]
fn test_context_for_tool() {
    let internals = create_test_internals();

    let ctx = internals.context_for_tool("tool_123");
    assert_eq!(ctx.current_tool_use_id, Some("tool_123".into()));
    assert_eq!(ctx.session_id, "test-session");
}

#[test]
fn test_next_turn() {
    let mut internals = create_test_internals();

    assert_eq!(internals.context.current_turn, 0);
    internals.next_turn();
    assert_eq!(internals.context.current_turn, 1);
}

#[test]
fn test_send_done() {
    let mut internals = create_test_internals();

    internals.send_done();

    let out = internals.take_outbox();
    assert!(matches!(&out[0], OutputChunk::Done));
}

#[test]
fn test_receive() {
    let received = Some(InputMessage::UserInput("Hello".to_string()));
    let msg = Internals::receive_or_err(received).unwrap();
    assert!(matches!(msg, InputMessage::UserInput(s) if s == "Hello"));
}

#[test]
fn test_channel_close() {
    let e = Internals::receive_or_err(None).err().unwrap();
    assert!(matches!(e, FrameworkError::ChannelClosed));
}

#[test]
fn everything_that_is_sent_waits_in_order() {
    let mut internals = create_test_internals();
    internals.send_thinking("t");
    internals.send_thinking_complete("tt");
    internals.send_text_complete("x");
    internals.send_status("s");
    internals.send_error("e");
    internals.set_error("bad");
    internals.set_idle();
    internals.set_done();
    internals.set_waiting_for_subagent("sub");
    let out = internals.take_outbox();
    assert!(matches!(&out[0], OutputChunk::ThinkingDelta(s) if s == "t"));
    assert!(matches!(&out[1], OutputChunk::ThinkingComplete(s) if s == "tt"));
    assert!(matches!(&out[2], OutputChunk::TextComplete(s) if s == "x"));
    assert!(matches!(&out[3], OutputChunk::Status(s) if s == "s"));
    assert!(matches!(&out[4], OutputChunk::Error(s) if s == "e"));
    assert!(matches!(
        &out[5],
        OutputChunk::StateChange(AgentState::Error { message }) if message == "bad"
    ));
    assert!(matches!(&out[6], OutputChunk::StateChange(AgentState::Idle)));
    assert!(matches!(&out[7], OutputChunk::StateChange(AgentState::Done)));
    assert!(matches!(
        &out[8],
        OutputChunk::StateChange(AgentState::WaitingForSubAgent { session_id })
            if session_id == "sub"
    ));
    assert_eq!(out.len(), 9);
    assert_eq!(internals.session_id(), "test-session");
    assert_eq!(internals.agent_type(), "test-agent");
}

#[test]
fn the_user_is_asked_and_remembered() {
    let shared = create_test_rules();
    let mut internals = create_test_internals();
    let step = internals.request_permission(&shared, "Bash", "run ls", "ls");
    assert_eq!(step, PermissionStep::Asked);
    assert_eq!(internals.state(), AgentState::WaitingForPermission);
    let out = internals.take_outbox();
    assert_eq!(out.len(), 2);
    assert!(matches!(
        &out[0],
        OutputChunk::PermissionRequest { tool_name, action, input, details: None }
            if tool_name == "Bash" && action == "run ls" && input == "ls"
    ));

    let once = InputMessage::PermissionResponse {
        tool_name: "Bash".to_string(),
        allowed: true,
        remember: false,
    };
    assert!(internals.permission_answered("Bash", Some(once)).unwrap());
    assert_eq!(internals.check_permission(&shared, "Bash", "ls"), CheckResult::AskUser);

    let always = InputMessage::PermissionResponse {
        tool_name: "Bash".to_string(),
        allowed: true,
        remember: true,
    };
    assert!(internals.permission_answered("Bash", Some(always)).unwrap());
    let step = internals.request_permission(&shared, "Bash", "run rm", "rm");
    assert_eq!(step, PermissionStep::Decided(true));
    assert!(internals.take_outbox().is_empty());
}

#[test]
fn answers_that_are_no_yes() {
    let shared = create_test_rules();
    let mut internals = create_test_internals();
    let other = InputMessage::PermissionResponse {
        tool_name: "Read".to_string(),
        allowed: true,
        remember: true,
    };
    assert!(!internals.permission_answered("Bash", Some(other)).unwrap());
    let never = InputMessage::PermissionResponse {
        tool_name: "Bash".to_string(),
        allowed: false,
        remember: true,
    };
    assert!(!internals.permission_answered("Bash", Some(never)).unwrap());
    let chat = InputMessage::UserInput("yes".to_string());
    assert!(!internals.permission_answered("Bash", Some(chat)).unwrap());
    assert!(matches!(
        internals.permission_answered("Bash", Some(InputMessage::Shutdown)),
        Err(FrameworkError::Shutdown)
    ));
    assert!(matches!(
        internals.permission_answered("Bash", Some(InputMessage::Interrupt)),
        Err(FrameworkError::Interrupted)
    ));
    assert!(matches!(
        internals.permission_answered("Bash", None),
        Err(FrameworkError::ChannelClosed)
    ));
    assert_eq!(internals.check_permission(&shared, "Bash", ""), CheckResult::AskUser);
    internals.set_interactive(false);
    assert!(!internals.is_interactive());
    let step = internals.request_permission(&shared, "Bash", "a", "b");
    assert_eq!(step, PermissionStep::Decided(false));
}

#[test]
fn rules_may_be_added_from_within() {
    let mut shared = create_test_rules();
    let mut internals = create_test_internals();
    internals.add_permission_rule(
        &mut shared,
        PermissionRule::allow_tool("Read"),
        PermissionScope::Global,
    );
    assert_eq!(shared.get(GLOBAL).unwrap().rules().len(), 1);
    assert_eq!(internals.check_permission(&shared, "Read", ""), CheckResult::Allowed);
}

#[test]
fn questions_and_their_answers() {
    let mut internals = create_test_internals();
    internals.ask_user_question("r1", Vec::new());
    assert_eq!(internals.state(), AgentState::waiting_for_user_input("r1"));
    let out = internals.take_outbox();
    assert!(matches!(&out[0], OutputChunk::AskUserQuestion { request_id, .. } if request_id == "r1"));

    let reply = |id: &str| InputMessage::UserQuestionResponse {
        request_id: id.to_string(),
        answers: vec![("Colour".to_string(), "red".to_string())],
    };
    let got = Internals::questions_answered("r1", Some(reply("r1"))).unwrap();
    assert_eq!(got, vec![("Colour".to_string(), "red".to_string())]);
    assert!(matches!(
        Internals::questions_answered("r1", Some(reply("r2"))),
        Err(FrameworkError::Other(s)) if s == "Mismatched request ID: expected r1, got r2"
    ));
    assert!(matches!(
        Internals::questions_answered("r1", Some(InputMessage::Interrupt)),
        Err(FrameworkError::Interrupted)
    ));
    assert!(matches!(
        Internals::questions_answered("r1", Some(InputMessage::Shutdown)),
        Err(FrameworkError::Shutdown)
    ));
    assert!(matches!(
        Internals::questions_answered("r1", None),
        Err(FrameworkError::ChannelClosed)
    ));
    assert!(matches!(
        Internals::questions_answered("r1", Some(InputMessage::UserInput("x".to_string()))),
        Err(FrameworkError::Other(s)) if s == "Unexpected message while waiting for user response"
    ));
}

#[test]
fn tools_are_told_from_start_to_end() {
    let mut internals = create_test_internals();
    ToolExecutor::begin(&mut internals, "Bash", "t1", &json::text_value("ls"));
    assert_eq!(internals.context.current_tool_use_id, Some("t1".to_string()));
    assert_eq!(internals.state(), AgentState::executing_tool("Bash", "t1"));
    let r = ToolExecutor::finish(&mut internals, "t1", Err("boom".to_string()));
    assert_eq!(r.text, "Tool execution failed: boom");
    assert!(r.is_error);
    assert_eq!(internals.context.current_tool_use_id, None);
    let out = internals.take_outbox();
    assert_eq!(out.len(), 3);
    assert!(matches!(&out[0], OutputChunk::StateChange(AgentState::ExecutingTool { .. })));
    assert!(matches!(&out[1], OutputChunk::ToolStart { id, name, .. } if id == "t1" && name == "Bash"));
    assert!(matches!(&out[2], OutputChunk::ToolEnd { id, result } if id == "t1" && result.is_error));
    let ok = ToolResult { text: "fine".to_string(), is_error: false };
    let r = ToolExecutor::finish(&mut internals, "t2", Ok(ok));
    assert_eq!(r.text, "fine");
}

#[test]
fn an_agent_begins_in_the_state_it_is_given() {
    let internals: Internals = AgentInternals::new(
        AgentContext::new("s", "t", "n", "d"),
        PermissionManager::new(GLOBAL, "t"),
        AgentState::Done,
    );
    assert!(matches!(internals.state(), AgentState::Done));
}

#[test]
fn subagents_are_told() {
    let mut internals = create_test_internals();
    assert!(internals.subagent_manager().is_none());
    assert!(internals.active_subagents().is_empty());
    internals.mark_subagent_completed("sub", None, true, None);
    assert!(internals.subagent_manager().is_none());
    assert!(internals.take_outbox().is_empty());
    internals.subagent_spawned("sub", "researcher", AgentHandle::new("sub"));
    assert_eq!(internals.active_subagents(), vec!["sub".to_string()]);
    assert_eq!(internals.get_subagent("sub").unwrap().session_id(), "sub");
    internals.mark_subagent_completed("sub", Some("found".to_string()), true, None);
    assert!(internals.get_subagent("sub").is_none());
    let done = internals.subagent_manager().unwrap().get_completed("sub").unwrap();
    assert_eq!(done.agent_type, "unknown");
    assert_eq!(done.result, Some("found".to_string()));
    let out = internals.take_outbox();
    assert!(matches!(
        &out[0],
        OutputChunk::SubAgentSpawned { session_id, agent_type }
            if session_id == "sub" && agent_type == "researcher"
    ));
    assert!(matches!(
        &out[1],
        OutputChunk::SubAgentComplete { session_id, result }
            if session_id == "sub" && *result == Some("found".to_string())
    ));
}

// ---------------------------------------------------------------------------
// Subagents
// ---------------------------------------------------------------------------

#[test]
fn test_register_and_get() {
    let mut manager = SubAgentManager::new();

    manager.register("sub-1", AgentHandle::new("sub-1"));

    assert!(manager.is_known("sub-1"));
    assert!(manager.is_active("sub-1"));
    assert!(manager.get("sub-1").is_some());
    assert_eq!(manager.active_count(), 1);
}

#[test]
fn test_mark_completed() {
    let mut manager = SubAgentManager::new();

    manager.register("sub-1", AgentHandle::new("sub-1"));
    manager.mark_completed("sub-1", "test-agent", Some("Done".to_string()), true, None);

    assert!(!manager.is_active("sub-1"));
    assert!(manager.is_known("sub-1"));
    assert!(manager.get("sub-1").is_none());

    let completed = manager.get_completed("sub-1").unwrap();
    assert_eq!(completed.result, Some("Done".to_string()));
    assert!(completed.success);
}

#[test]
fn test_active_session_ids() {
    let mut manager = SubAgentManager::new();
    manager.register("sub-1", AgentHandle::new("sub-1"));
    manager.register("sub-2", AgentHandle::new("sub-2"));

    let ids = manager.active_session_ids();
    assert_eq!(ids.len(), 2);
    assert!(ids.contains(&"sub-1".to_string()));
    assert!(ids.contains(&"sub-2".to_string()));
}

#[test]
fn test_remove() {
    let mut manager = SubAgentManager::new();
    manager.register("sub-1", AgentHandle::new("sub-1"));
    manager.mark_completed("sub-1", "test", None, true, None);

    assert!(manager.is_known("sub-1"));
    manager.remove("sub-1");
    assert!(!manager.is_known("sub-1"));
}

#[test]
fn subagents_are_counted_and_listed() {
    let mut manager = SubAgentManager::new();
    manager.register("a", 1);
    manager.register("b", 2);
    manager.register("c", 3);
    manager.mark_completed("b", "t", None, false, Some("failed".to_string()));
    assert_eq!(manager.total_count(), 3);
    assert_eq!(manager.active_count(), 2);
    let active = manager.active_subagents();
    assert_eq!(active.len(), 2);
    assert!(active.iter().any(|(id, h)| id == "a" && **h == 1));
    assert!(active.iter().any(|(id, h)| id == "c" && **h == 3));
    let ended = manager.completed_subagents();
    assert_eq!(ended.len(), 1);
    assert_eq!(ended[0].session_id, "b");
    assert_eq!(ended[0].error, Some("failed".to_string()));
    manager.clear_completed();
    assert_eq!(manager.total_count(), 2);
    assert!(!manager.is_known("b"));
}

// ---------------------------------------------------------------------------
// The runtime
// ---------------------------------------------------------------------------

fn spawn(runtime: &mut AgentRuntime<AgentHandle>, name: &str) -> Internals {
    let session = create_test_session(name);
    runtime.spawn(&session, AgentHandle::new(name))
}

#[test]
fn test_spawn_agent() {
    let mut runtime = AgentRuntime::new();
    let mut internals = spawn(&mut runtime, "spawn-test");

    internals.set_done();
    assert_eq!(runtime.get("spawn-test").unwrap().session_id(), "spawn-test");
    assert_eq!(internals.session_id(), "spawn-test");
    assert_eq!(internals.agent_type(), "test-agent");
    assert_eq!(internals.context.name, "Test Agent");
}

#[test]
fn test_agent_communication() {
    let mut runtime = AgentRuntime::new();
    let mut internals = spawn(&mut runtime, "comm-test");
    let handle = runtime.get("comm-test").unwrap();

    match handle.send_input("Hello") {
        InputMessage::UserInput(text) => {
            internals.send_text(&format!("Echo: {}", text));
            internals.send_done();
        }
        _ => panic!("unexpected message"),
    }

    let out = internals.take_outbox();
    assert!(matches!(&out[0], OutputChunk::TextDelta(s) if s == "Echo: Hello"));
    assert!(matches!(&out[1], OutputChunk::Done));
}

#[test]
fn test_runtime_registry() {
    let mut runtime = AgentRuntime::new();
    let _i1 = spawn(&mut runtime, "agent-1");
    let _i2 = spawn(&mut runtime, "agent-2");

    assert_eq!(runtime.count(), 2);
    assert!(runtime.is_running("agent-1"));
    assert!(runtime.is_running("agent-2"));
    assert!(!runtime.is_running("agent-3"));

    let running = runtime.list_running();
    assert!(running.contains(&"agent-1".to_string()));
    assert!(running.contains(&"agent-2".to_string()));

    let handle = runtime.get("agent-1");
    assert!(handle.is_some());
    assert_eq!(handle.unwrap().session_id(), "agent-1");

    let messages = runtime.shutdown_all();
    assert_eq!(messages.len(), 2);
    for (id, message) in messages {
        assert!(matches!(message, InputMessage::Shutdown));
        runtime.finished(&id);
    }
    assert_eq!(runtime.count(), 0);
}

#[test]
fn test_shutdown_nonexistent() {
    let runtime: AgentRuntime<AgentHandle> = AgentRuntime::new();

    let result = runtime.shutdown("nonexistent");
    assert!(matches!(result, Err(FrameworkError::AgentNotRunning(_))));
}

#[test]
fn runtime_test_interrupt() {
    let mut runtime = AgentRuntime::new();
    let mut internals = spawn(&mut runtime, "interrupt-test");

    match runtime.interrupt("interrupt-test").unwrap() {
        InputMessage::Interrupt => {
            internals.send_status("Interrupted");
            internals.set_done();
        }
        _ => panic!("unexpected message"),
    }

    let out = internals.take_outbox();
    assert!(matches!(&out[0], OutputChunk::Status(s) if s == "Interrupted"));
    assert!(matches!(
        runtime.interrupt("nonexistent"),
        Err(FrameworkError::AgentNotRunning(s)) if s == "nonexistent"
    ));
}

#[test]
fn test_agent_auto_cleanup() {
    let mut runtime = AgentRuntime::new();
    let _internals = spawn(&mut runtime, "cleanup-test");

    assert!(runtime.is_running("cleanup-test"));

    runtime.finished("cleanup-test");

    assert!(!runtime.is_running("cleanup-test"));
}

#[test]
fn test_wait_for() {
    let mut runtime = AgentRuntime::new();
    let mut internals = spawn(&mut runtime, "wait-test");

    assert!(runtime.is_running("wait-test"));

    internals.set_done();
    runtime.finished("wait-test");

    assert!(!runtime.is_running("wait-test"));
    assert!(AgentHandle::is_done(&internals.state()));
}

#[test]
fn agents_share_the_rules_of_the_runtime() {
    let mut runtime: AgentRuntime<AgentHandle> =
        AgentRuntime::with_global_rules(vec![PermissionRule::allow_tool("Read")]);
    let session = create_test_session("a");
    let a: Internals = runtime.spawn_with_local_rules(
        &session,
        vec![PermissionRule::allow_tool("Glob")],
        AgentHandle::new("a"),
    );
    let b = spawn(&mut runtime, "b");
    let global = runtime.global_permissions();
    assert_eq!(a.permissions.global(), global);
    assert_eq!(b.permissions.global(), global);
    runtime.shared_mut().add_rule(global, PermissionRule::allow_tool("Grep"));
    let shared = runtime.shared();
    assert_eq!(a.check_permission(shared, "Read", ""), CheckResult::Allowed);
    assert_eq!(a.check_permission(shared, "Grep", ""), CheckResult::Allowed);
    assert_eq!(a.check_permission(shared, "Glob", ""), CheckResult::Allowed);
    assert_eq!(b.check_permission(shared, "Grep", ""), CheckResult::Allowed);
    assert_eq!(b.check_permission(shared, "Glob", ""), CheckResult::AskUser);
}

#[test]
fn rules_of_one_agent_hold_for_the_others() {
    let mut runtime: AgentRuntime<AgentHandle> = AgentRuntime::default();
    let mut a = spawn(&mut runtime, "a");
    let b = spawn(&mut runtime, "b");
    let rule = PermissionRule::allow_tool("Edit");
    a.add_permission_rule(runtime.shared_mut(), rule, PermissionScope::Global);
    let c = spawn(&mut runtime, "c");
    for agent in [&a, &b, &c] {
        let got = agent.check_permission(runtime.shared(), "Edit", "x");
        assert_eq!(got, CheckResult::Allowed);
    }
}

#[test]
fn an_agent_starts_another_in_one_step() {
    let mut storage = SessionStorage::new();
    let parent = AgentSession::new_with_storage("p", "main", "P", "D", "", &mut storage);
    let mut runtime: AgentRuntime<AgentHandle> = AgentRuntime::new();
    let mut internals: Internals = runtime.spawn(&parent, AgentHandle::new("p"));
    assert!(!internals.context.is_subagent());
    let (session, child) = internals.spawn_subagent(
        &mut runtime,
        "c",
        "helper",
        "C",
        "what it does",
        "prompt",
        "t1",
        &mut storage,
        AgentHandle::new("c"),
        AgentHandle::new("c"),
    );
    assert_eq!(session.parent_session_id(), Some("p"));
    assert_eq!(session.parent_tool_use_id(), Some("t1"));
    assert!(child.context.is_subagent());
    assert_eq!(child.context.parent_session_id, Some("p".to_string()));
    assert_eq!(child.context.parent_tool_use_id, Some("t1".to_string()));
    assert_eq!(child.permissions.global(), runtime.global_permissions());
    let kept = storage.load_metadata("p").ok().unwrap();
    assert_eq!(kept.child_session_ids, vec!["c".to_string()]);
    assert!(runtime.is_running("p") && runtime.is_running("c"));
    assert_eq!(internals.active_subagents(), vec!["c".to_string()]);
    let out = internals.take_outbox();
    assert_eq!(out.len(), 1);
    assert!(matches!(
        &out[0],
        OutputChunk::SubAgentSpawned { session_id, agent_type }
            if session_id == "c" && agent_type == "helper"
    ));
}

#[test]
fn what_is_made_by_default_is_empty() {
    let runtime: AgentRuntime<AgentHandle> = AgentRuntime::default();
    assert_eq!(runtime.count(), 0);
    assert!(runtime.shared().get(runtime.global_permissions()).unwrap().rules().is_empty());
    let manager: SubAgentManager<AgentHandle> = SubAgentManager::default();
    assert!(manager.get("a").is_none());
}

#[test]
fn subagents_are_spawned_with_a_session() {
    let mut storage = SessionStorage::new();
    let parent = AgentSession::new_with_storage("p", "main", "P", "D", "", &mut storage);
    let mut runtime: AgentRuntime<AgentHandle> = AgentRuntime::new();
    let (session, internals): (AgentSession, Internals) = runtime.spawn_subagent(
        "c",
        "helper",
        "C",
        "D",
        "prompt",
        parent.session_id(),
        "t1",
        &mut storage,
        AgentHandle::new("c"),
    );
    assert!(runtime.is_running("c"));
    assert_eq!(session.parent_session_id(), Some("p"));
    assert_eq!(internals.session_id(), "c");
    let parent = AgentSession::load_with_storage("p", &storage).unwrap();
    assert_eq!(parent.child_session_ids(), &vec!["c".to_string()]);
}
