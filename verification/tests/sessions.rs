use picrust::errors::FrameworkError;
use picrust::json;
use picrust::messages::Message;
use picrust::metadata::{SessionMetadata, Timestamp};
use picrust::runtime::AgentHandle;
use picrust::sessions::{AgentSession, SessionStorage};

fn make(id: &str, agent_type: &str, storage: &mut SessionStorage) -> AgentSession {
    AgentSession::new_with_storage(id, agent_type, "Test", "Testing", "Test system prompt.", storage)
}

fn make_child(id: &str, parent: &str, storage: &mut SessionStorage) -> AgentSession {
    AgentSession::new_subagent_with_storage(
        id,
        "helper",
        "Child 1",
        "A child agent",
        "Test system prompt.",
        parent,
        "tool_123",
        storage,
    )
}

fn is_missing(e: &FrameworkError, id: &str) -> bool {
    match e {
        FrameworkError::SessionNotFound(s) => s == id,
        _ => false,
    }
}

// ---------------------------------------------------------------------------
// Metadata
// ---------------------------------------------------------------------------

#[test]
fn test_root_metadata() {
    let meta = SessionMetadata::new("session_123", "coder", "My Coder", "A coding agent");

    assert_eq!(meta.session_id, "session_123");
    assert_eq!(meta.agent_type, "coder");
    assert_eq!(meta.name, "My Coder");
    assert!(!meta.is_subagent());
    assert!(meta.child_session_ids.is_empty());
}

#[test]
fn test_subagent_metadata() {
    let meta = SessionMetadata::new_subagent(
        "sub_123",
        "researcher",
        "Research Helper",
        "Finds information",
        "parent_456",
        "tool_789",
    );

    assert!(meta.is_subagent());
    assert_eq!(meta.parent_session_id, Some("parent_456".into()));
    assert_eq!(meta.parent_tool_use_id, Some("tool_789".into()));
}

#[test]
fn test_add_child() {
    let mut meta = SessionMetadata::new("session", "test", "Test", "Testing");

    meta.add_child("child_1");
    meta.add_child("child_2");

    assert_eq!(meta.child_session_ids.len(), 2);
    assert!(meta.child_session_ids.contains(&"child_1".to_string()));
    assert!(meta.child_session_ids.contains(&"child_2".to_string()));
}

#[test]
fn metadata_test_custom_metadata() {
    let mut meta = SessionMetadata::new("session", "test", "Test", "Testing");

    meta.set_custom("key1", json::text_value("value1"));
    meta.set_custom("key2", json::whole_value(42));

    assert_eq!(
        meta.get_custom("key1").and_then(|v| v.as_text()),
        Some(&"value1".to_string())
    );
    assert_eq!(meta.get_custom("key2").and_then(|v| v.as_whole()), Some(42));
}

#[test]
fn metadata_test_conversation_name() {
    let mut meta = SessionMetadata::new("session", "test", "Test", "Testing");

    assert!(!meta.has_conversation_name());
    assert!(meta.conversation_name().is_none());

    meta.set_conversation_name("Help with Rust code");

    assert!(meta.has_conversation_name());
    assert_eq!(meta.conversation_name(), Some("Help with Rust code"));
}

#[test]
fn the_time_of_a_change_is_noted() {
    let early = Timestamp { secs: 10, nanos: 5 };
    let late = Timestamp { secs: 20, nanos: 0 };
    let mut meta = SessionMetadata::new_at("s", "t", "n", "d", early);
    assert_eq!(meta.created_at, early);
    assert_eq!(meta.updated_at, early);
    meta.touch_at(late);
    assert_eq!(meta.created_at, early);
    assert_eq!(meta.updated_at, late);
    let meta = meta.with_model("m").with_provider("p");
    assert_eq!(meta.model, "m");
    assert_eq!(meta.provider, "p");
    assert_eq!(meta.updated_at, late);
}

#[test]
fn the_clock_runs() {
    let mut meta = SessionMetadata::new("s", "t", "n", "d");
    assert!(meta.created_at.secs > 1_600_000_000);
    assert!(meta.created_at.nanos < 2_000_000_000);
    assert_eq!(meta.created_at, meta.updated_at);
    let was = meta.created_at;
    meta.touch();
    assert_eq!(meta.created_at, was);
    assert!(meta.updated_at.secs >= was.secs);
}

// ---------------------------------------------------------------------------
// Sessions
// ---------------------------------------------------------------------------

#[test]
fn test_new_session() {
    let mut storage = SessionStorage::new();

    let session = AgentSession::new_with_storage(
        "test_session",
        "coder",
        "Test Coder",
        "A test agent",
        "You are a coder.",
        &mut storage,
    );

    assert_eq!(session.session_id(), "test_session");
    assert_eq!(session.agent_type(), "coder");
    assert_eq!(session.name(), "Test Coder");
    assert_eq!(session.description(), "A test agent");
    assert!(!session.is_subagent());
    assert!(session.history().is_empty());
    assert_eq!(session.system_prompt(), "You are a coder.");
}

#[test]
fn test_subagent_session() {
    let mut storage = SessionStorage::new();

    let _parent = AgentSession::new_with_storage(
        "parent",
        "main",
        "Main Agent",
        "Parent agent",
        "Test system prompt.",
        &mut storage,
    );

    let subagent = AgentSession::new_subagent_with_storage(
        "sub_session",
        "researcher",
        "Research Agent",
        "Finds info",
        "Test system prompt.",
        "parent",
        "tool_123",
        &mut storage,
    );

    assert!(subagent.is_subagent());
    assert_eq!(subagent.parent_session_id(), Some("parent"));

    let reloaded_parent = AgentSession::load_with_storage("parent", &storage).unwrap();
    assert!(reloaded_parent.child_session_ids().contains(&"sub_session".to_string()));
}

#[test]
fn test_add_and_get_messages() {
    let mut storage = SessionStorage::new();
    let mut session = make("msg_session", "coder", &mut storage);

    session.add_message(Message::user("Hello"), &mut storage).unwrap();
    session.add_message(Message::assistant("Hi there"), &mut storage).unwrap();

    assert_eq!(session.history().len(), 2);

    let reloaded = AgentSession::load_with_storage("msg_session", &storage).unwrap();
    assert_eq!(reloaded.history().len(), 2);
    assert_eq!(reloaded.history()[0].text(), "Hello");
    assert_eq!(reloaded.history()[1].text(), "Hi there");
}

#[test]
fn test_save_and_reload() {
    let mut storage = SessionStorage::new();
    let mut session = make("save_test", "coder", &mut storage);

    session.messages.push(Message::user("Direct add"));
    session.save(&mut storage);

    let reloaded = AgentSession::load_with_storage("save_test", &storage).unwrap();
    assert_eq!(reloaded.history().len(), 1);
}

#[test]
fn test_delete_session() {
    let mut storage = SessionStorage::new();
    let session = make("to_delete", "coder", &mut storage);

    assert!(AgentSession::exists_with_storage("to_delete", &storage));

    session.delete(&mut storage).unwrap();

    assert!(!AgentSession::exists_with_storage("to_delete", &storage));
}

#[test]
fn test_list_sessions() {
    let mut storage = SessionStorage::new();

    let _s1 = AgentSession::new_with_storage(
        "session1",
        "coder",
        "S1",
        "D1",
        "Test system prompt.",
        &mut storage,
    );
    let _s2 = AgentSession::new_with_storage(
        "session2",
        "researcher",
        "S2",
        "D2",
        "Test system prompt.",
        &mut storage,
    );

    let sessions = AgentSession::list_all_with_storage(&storage);
    assert_eq!(sessions.len(), 2);
    assert!(sessions.contains(&"session1".to_string()));
    assert!(sessions.contains(&"session2".to_string()));
}

#[test]
fn session_test_custom_metadata() {
    let mut storage = SessionStorage::new();
    let mut session = make("custom_test", "coder", &mut storage);

    session.set_custom("key1", json::text_value("value1"));
    session.set_custom("count", json::whole_value(42));
    session.save(&mut storage);

    let reloaded = AgentSession::load_with_storage("custom_test", &storage).unwrap();
    assert_eq!(
        reloaded.get_custom("key1").and_then(|v| v.as_text()),
        Some(&"value1".to_string())
    );
    assert_eq!(reloaded.get_custom("count").and_then(|v| v.as_whole()), Some(42));
}

#[test]
fn models_and_providers_are_set() {
    let mut storage = SessionStorage::new();
    let mut session = make("model_test", "coder", &mut storage);

    session.set_model("gpt-4o");
    session.set_provider("anthropic");

    assert_eq!(session.model(), "gpt-4o");
    assert_eq!(session.provider(), "anthropic");
}

#[test]
fn session_test_conversation_name() {
    let mut storage = SessionStorage::new();
    let mut session = make("conv_name_test", "coder", &mut storage);

    assert!(!session.has_conversation_name());
    assert!(session.conversation_name().is_none());

    session.set_conversation_name("Help with Rust code", &mut storage);

    assert!(session.has_conversation_name());
    assert_eq!(session.conversation_name(), Some("Help with Rust code"));

    let reloaded = AgentSession::load_with_storage("conv_name_test", &storage).unwrap();
    assert_eq!(reloaded.conversation_name(), Some("Help with Rust code"));
}

#[test]
fn test_list_filtered() {
    let mut storage = SessionStorage::new();

    let _parent1 = AgentSession::new_with_storage(
        "parent1",
        "main",
        "Parent 1",
        "First parent",
        "Test system prompt.",
        &mut storage,
    );
    let _parent2 = AgentSession::new_with_storage(
        "parent2",
        "main",
        "Parent 2",
        "Second parent",
        "Test system prompt.",
        &mut storage,
    );
    let _child = make_child("child1", "parent1", &mut storage);

    let all = AgentSession::list_filtered_with_storage(false, &storage);
    assert_eq!(all.len(), 3);

    let top_level = AgentSession::list_filtered_with_storage(true, &storage);
    assert_eq!(top_level.len(), 2);
    assert!(top_level.contains(&"parent1".to_string()));
    assert!(top_level.contains(&"parent2".to_string()));
    assert!(!top_level.contains(&"child1".to_string()));

    let top_level2 = AgentSession::list_top_level_with_storage(&storage);
    assert_eq!(top_level2.len(), 2);
}

#[test]
fn test_list_with_metadata() {
    let mut storage = SessionStorage::new();

    let _main = AgentSession::new_with_storage(
        "main_agent",
        "coder",
        "Main Agent",
        "Main agent description",
        "Test system prompt.",
        &mut storage,
    );

    let _sub = AgentSession::new_subagent_with_storage(
        "sub_agent",
        "researcher",
        "Sub Agent",
        "Sub agent description",
        "Test system prompt.",
        "main_agent",
        "tool_456",
        &mut storage,
    );

    let all = AgentSession::list_with_metadata_and_storage(false, &storage);
    assert_eq!(all.len(), 2);

    let top_level = AgentSession::list_with_metadata_and_storage(true, &storage);
    assert_eq!(top_level.len(), 1);
    assert_eq!(top_level[0].0, "main_agent");
    assert_eq!(top_level[0].1.name, "Main Agent");
}

#[test]
fn test_get_history() {
    let mut storage = SessionStorage::new();
    let mut session = make("history_test", "coder", &mut storage);

    session.add_message(Message::user("Hello"), &mut storage).unwrap();
    session.add_message(Message::assistant("Hi there!"), &mut storage).unwrap();
    session.add_message(Message::user("How are you?"), &mut storage).unwrap();

    let history = AgentSession::get_history_with_storage("history_test", &storage).unwrap();
    assert_eq!(history.len(), 3);
}

#[test]
fn test_get_metadata() {
    let mut storage = SessionStorage::new();

    let _session = AgentSession::new_with_storage(
        "meta_test",
        "researcher",
        "Research Agent",
        "Finds information",
        "Test system prompt.",
        &mut storage,
    );

    let metadata = AgentSession::get_metadata_with_storage("meta_test", &storage).unwrap();
    assert_eq!(metadata.session_id, "meta_test");
    assert_eq!(metadata.agent_type, "researcher");
    assert_eq!(metadata.name, "Research Agent");
    assert!(!metadata.is_subagent());
}

#[test]
fn sessions_that_are_not_kept_cannot_be_loaded() {
    let mut storage = SessionStorage::new();
    let e = AgentSession::load_with_storage("gone", &storage).err().unwrap();
    assert!(is_missing(&e, "gone"));
    let e = AgentSession::get_history_with_storage("gone", &storage).err().unwrap();
    assert!(is_missing(&e, "gone"));
    let e = AgentSession::get_metadata_with_storage("gone", &storage).err().unwrap();
    assert!(is_missing(&e, "gone"));
    let e = storage.save_system_prompt("gone", "x").err().unwrap();
    assert!(is_missing(&e, "gone"));
    let e = storage.append_message("gone", &Message::user("x")).err().unwrap();
    assert!(is_missing(&e, "gone"));
    let e = storage.save_messages("gone", &vec![]).err().unwrap();
    assert!(is_missing(&e, "gone"));
    let e = storage.load_system_prompt("gone").err().unwrap();
    assert!(is_missing(&e, "gone"));
    let e = storage.delete_session("gone").err().unwrap();
    assert!(is_missing(&e, "gone"));
}

#[test]
fn a_message_to_a_dropped_session_is_refused() {
    let mut storage = SessionStorage::new();
    let mut session = make("s", "coder", &mut storage);
    storage.delete_session("s").unwrap();
    let e = session.add_message(Message::user("x"), &mut storage).err().unwrap();
    assert!(is_missing(&e, "s"));
    assert!(session.history().is_empty());
    let e = session.reload(&storage).err().unwrap();
    assert!(is_missing(&e, "s"));
}

#[test]
fn reloading_drops_what_was_not_saved() {
    let mut storage = SessionStorage::new();
    let mut session = make("s", "coder", &mut storage);
    session.add_message(Message::user("kept"), &mut storage).unwrap();
    session.history_mut().push(Message::user("lost"));
    assert_eq!(session.history().len(), 2);
    session.reload(&storage).unwrap();
    assert_eq!(session.history().len(), 1);
    assert_eq!(session.history()[0].text(), "kept");
}

#[test]
fn a_system_prompt_is_kept() {
    let mut storage = SessionStorage::new();
    let mut session = make("s", "coder", &mut storage);
    session.update_system_prompt("Be brief.", &mut storage).unwrap();
    assert_eq!(session.system_prompt(), "Be brief.");
    assert_eq!(storage.load_system_prompt("s").unwrap(), "Be brief.");
    let loaded = AgentSession::load_with_storage("s", &storage).unwrap();
    assert_eq!(loaded.system_prompt(), "Be brief.");
}

#[test]
fn a_child_of_an_unknown_parent_is_kept_alone() {
    let mut storage = SessionStorage::new();
    let child = make_child("child", "nobody", &mut storage);
    assert_eq!(child.parent_session_id(), Some("nobody"));
    assert_eq!(AgentSession::list_all_with_storage(&storage), vec!["child".to_string()]);
    assert!(AgentSession::list_top_level_with_storage(&storage).is_empty());
}

#[test]
fn sessions_do_not_disturb_each_other() {
    let mut storage = SessionStorage::new();
    let mut a = make("a", "coder", &mut storage);
    let mut b = make("b", "coder", &mut storage);
    a.add_message(Message::user("to a"), &mut storage).unwrap();
    b.save(&mut storage);
    b.save(&mut storage);
    let a2 = AgentSession::load_with_storage("a", &storage).unwrap();
    assert_eq!(a2.history().len(), 1);
    assert_eq!(a2.system_prompt(), "Test system prompt.");
}

#[test]
fn a_session_made_again_keeps_its_messages() {
    let mut storage = SessionStorage::new();
    let mut first = make("s", "coder", &mut storage);
    first.add_message(Message::user("old"), &mut storage).unwrap();
    let second = make("s", "writer", &mut storage);
    assert!(second.history().is_empty());
    let loaded = AgentSession::load_with_storage("s", &storage).unwrap();
    assert_eq!(loaded.agent_type(), "writer");
    assert_eq!(loaded.history().len(), 1);
}

#[test]
fn whether_permission_is_asked_for_is_kept() {
    let mut storage = SessionStorage::new();
    let mut session = make("s", "coder", &mut storage);
    assert!(!AgentHandle::is_dangerous_skip_permissions_enabled(&session));
    AgentHandle::set_dangerous_skip_permissions(&mut session, &mut storage, true);
    assert!(AgentHandle::is_dangerous_skip_permissions_enabled(&session));
    let loaded = AgentSession::load_with_storage("s", &storage).unwrap();
    assert!(AgentHandle::is_dangerous_skip_permissions_enabled(&loaded));
    AgentHandle::set_dangerous_skip_permissions(&mut session, &mut storage, false);
    assert!(!AgentHandle::is_dangerous_skip_permissions_enabled(&session));
    AgentHandle::set_custom_metadata(
        &mut session,
        &mut storage,
        "working_folder",
        json::text_value("/tmp"),
    );
    let v = AgentHandle::get_custom_metadata(&session, "working_folder").unwrap();
    assert_eq!(v.as_text(), Some(&"/tmp".to_string()));
    assert!(AgentHandle::get_custom_metadata(&session, "other").is_none());
}
