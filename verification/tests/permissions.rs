use picrust::permissions::{
    CheckResult, GlobalPermissions, GlobalRef, PermissionDecision, PermissionManager,
    PermissionRequest, PermissionRule, PermissionScope, RuleType, SharedPermissions,
};
use picrust::state::AgentState;

#[test]
fn test_state_checks() {
    assert!(AgentState::Done.is_terminal());
    assert!(AgentState::error("oops").is_terminal());
    assert!(!AgentState::Idle.is_terminal());

    assert!(AgentState::Processing.is_active());
    assert!(AgentState::executing_tool("Bash", "123").is_active());
    assert!(!AgentState::Idle.is_active());

    assert!(AgentState::Idle.is_waiting());
    assert!(AgentState::WaitingForPermission.is_waiting());
    assert!(!AgentState::Processing.is_waiting());
}

#[test]
fn test_state_display() {
    assert_eq!(AgentState::Idle.to_string(), "Idle");
    assert_eq!(AgentState::executing_tool("Bash", "123").to_string(), "Executing tool: Bash");
}

#[test]
fn every_state_is_shown_and_is_one_of_three() {
    let all = vec![
        (AgentState::Idle, "Idle"),
        (AgentState::Processing, "Processing"),
        (AgentState::WaitingForPermission, "Waiting for permission"),
        (AgentState::waiting_for_user_input("r1"), "Waiting for user input: r1"),
        (AgentState::executing_tool("Read", "t1"), "Executing tool: Read"),
        (AgentState::waiting_for_subagent("s1"), "Waiting for subagent: s1"),
        (AgentState::Done, "Done"),
        (AgentState::error("no"), "Error: no"),
    ];
    for (state, shown) in all {
        assert_eq!(state.to_string(), shown);
        let n = [state.is_terminal(), state.is_active(), state.is_waiting()]
            .iter()
            .filter(|b| **b)
            .count();
        assert_eq!(n, 1);
        assert_eq!(state.copy(), state);
    }
    assert_eq!(AgentState::default(), AgentState::Idle);
}

#[test]
fn test_rule_allow_tool() {
    let rule = PermissionRule::allow_tool("Read");

    assert!(rule.matches("Read", "any input"));
    assert!(rule.matches("Read", ""));
    assert!(!rule.matches("Write", "any input"));
}

#[test]
fn test_rule_allow_prefix() {
    let rule = PermissionRule::allow_prefix("Bash", "cd");

    assert!(rule.matches("Bash", "cd /home"));
    assert!(rule.matches("Bash", "cd"));
    assert!(rule.matches("Bash", "  cd /home"));
    assert!(!rule.matches("Bash", "rm -rf"));
    assert!(!rule.matches("Write", "cd /home"));
}

#[test]
fn a_prefix_rule_without_prefix_matches_nothing() {
    let rule = PermissionRule {
        rule_type: RuleType::AllowPrefix,
        tool_name: "Bash".to_string(),
        prefix: None,
    };
    assert!(!rule.matches("Bash", ""));
    assert!(!rule.matches("Bash", "ls"));
}

#[test]
fn test_global_permissions() {
    let mut global = GlobalPermissions::new();
    global.add_rule(PermissionRule::allow_tool("Read"));
    global.add_rule(PermissionRule::allow_prefix("Bash", "git status"));

    assert!(global.check("Read", "anything"));
    assert!(global.check("Bash", "git status"));
    assert!(!global.check("Bash", "rm -rf /"));
    assert!(!global.check("Write", "file.txt"));
}

#[test]
fn global_rules_are_kept_once() {
    let mut global = GlobalPermissions::with_rules(vec![PermissionRule::allow_tool("Read")]);
    global.add_rule(PermissionRule::allow_tool("Read"));
    global.add_rule(PermissionRule::allow_prefix("Read", "a"));
    global.add_rule(PermissionRule::allow_prefix("Read", "a"));
    global.add_rule(PermissionRule::allow_prefix("Read", "b"));
    let rules = global.rules();
    assert_eq!(rules.len(), 3);
    assert_eq!(rules[0].rule_type, RuleType::AllowTool);
    assert_eq!(rules[2].prefix, Some("b".to_string()));
    global.clear();
    assert!(global.rules().is_empty());
    assert!(!global.check("Read", "x"));
}

fn shared_set(rules: GlobalPermissions) -> (SharedPermissions, GlobalRef) {
    let mut shared = SharedPermissions::new();
    let global = shared.share(rules);
    (shared, global)
}

#[test]
fn test_permission_manager_hierarchy() {
    let mut global = GlobalPermissions::new();
    global.add_rule(PermissionRule::allow_tool("Read"));
    let (mut shared, global) = shared_set(global);

    let mut manager = PermissionManager::new(global, "test-agent");
    manager.add_rule(&mut shared, PermissionRule::allow_tool("Grep"), PermissionScope::Local);
    let ls = PermissionRule::allow_prefix("Bash", "ls");
    manager.add_rule(&mut shared, ls, PermissionScope::Session);

    assert_eq!(manager.check(&shared, "Bash", "ls -la"), CheckResult::Allowed);
    assert_eq!(manager.check(&shared, "Grep", "pattern"), CheckResult::Allowed);
    assert_eq!(manager.check(&shared, "Read", "file.txt"), CheckResult::Allowed);
    assert_eq!(manager.check(&shared, "Write", "file.txt"), CheckResult::AskUser);
}

#[test]
fn test_non_interactive_denies() {
    let (shared, global) = shared_set(GlobalPermissions::new());
    let mut manager = PermissionManager::new(global, "test-agent");
    manager.set_interactive(false);

    assert_eq!(manager.check(&shared, "Bash", "rm -rf"), CheckResult::Denied);
}

#[test]
fn test_process_decision_always_allow() {
    let (mut shared, global) = shared_set(GlobalPermissions::new());
    let mut manager = PermissionManager::new(global, "test-agent");

    let allowed = manager.process_decision(
        &mut shared,
        "Write",
        "file.txt",
        PermissionDecision::AlwaysAllow,
        PermissionScope::Session,
    );
    assert!(allowed);
    assert_eq!(manager.check(&shared, "Write", "anything"), CheckResult::Allowed);

    let mut manager2 = PermissionManager::new(global, "other-agent");
    let allowed = manager2.process_decision(
        &mut shared,
        "Bash",
        "echo",
        PermissionDecision::AlwaysAllow,
        PermissionScope::Global,
    );
    assert!(allowed);

    assert_eq!(manager.check(&shared, "Bash", "echo hi"), CheckResult::Allowed);
    assert_eq!(manager2.check(&shared, "Bash", "echo hi"), CheckResult::Allowed);
}

#[test]
fn test_global_shared_across_managers() {
    let (mut shared, global) = shared_set(GlobalPermissions::new());

    let manager1 = PermissionManager::new(global, "agent1");
    let manager2 = PermissionManager::new(global, "agent2");

    shared.add_rule(global, PermissionRule::allow_tool("Read"));

    assert_eq!(manager1.check(&shared, "Read", "file"), CheckResult::Allowed);
    assert_eq!(manager2.check(&shared, "Read", "file"), CheckResult::Allowed);
}

#[test]
fn decisions_for_once_leave_no_rule() {
    let (mut shared, global) = shared_set(GlobalPermissions::new());
    let mut manager = PermissionManager::new(global, "agent");
    for (decision, yes) in [
        (PermissionDecision::Allow, true),
        (PermissionDecision::Deny, false),
        (PermissionDecision::AlwaysDeny, false),
    ] {
        let r = manager.process_decision(
            &mut shared,
            "Write",
            "x",
            decision,
            PermissionScope::Global,
        );
        assert_eq!(r, yes);
    }
    assert!(manager.session_rules().is_empty());
    assert!(manager.local_rules().is_empty());
    assert!(shared.get(global).unwrap().rules().is_empty());
    assert_eq!(manager.check(&shared, "Write", "x"), CheckResult::AskUser);
}

#[test]
fn rules_go_where_their_scope_says() {
    let (mut shared, global) = shared_set(GlobalPermissions::new());
    let glob = vec![PermissionRule::allow_tool("Glob")];
    let mut manager = PermissionManager::with_local_rules(global, "coder", glob);
    manager.add_rule(&mut shared, PermissionRule::allow_tool("A"), PermissionScope::Session);
    manager.add_rule(&mut shared, PermissionRule::allow_tool("B"), PermissionScope::Local);
    manager.add_rule(&mut shared, PermissionRule::allow_tool("C"), PermissionScope::Global);
    assert_eq!(manager.session_rules().len(), 1);
    assert_eq!(manager.local_rules().len(), 2);
    assert_eq!(shared.get(global).unwrap().rules().len(), 1);
    assert_eq!(manager.agent_type(), "coder");
    assert!(manager.is_interactive());
    manager.clear_session_rules();
    assert_eq!(manager.check(&shared, "A", ""), CheckResult::AskUser);
    assert_eq!(manager.check(&shared, "B", ""), CheckResult::Allowed);
    let other = PermissionManager::new(global, "other");
    assert_eq!(other.check(&shared, "B", ""), CheckResult::AskUser);
    assert_eq!(other.check(&shared, "C", ""), CheckResult::Allowed);
}

#[test]
fn managers_keep_the_set_they_were_made_with() {
    let (mut shared, one) = shared_set(GlobalPermissions::new());
    let other = shared.share(GlobalPermissions::with_rules(vec![PermissionRule::allow_tool("A")]));
    assert_ne!(one, other);
    let rules = vec![PermissionRule::allow_tool("Glob")];
    let mut manager = PermissionManager::with_local_rules(one, "coder", rules);
    assert_eq!(manager.global(), one);
    assert_eq!(PermissionManager::new(other, "coder").global(), other);
    assert_eq!(manager.local_rules().len(), 1);
    assert!(manager.session_rules().is_empty());
    assert!(manager.is_interactive());
    assert_eq!(manager.check(&shared, "A", ""), CheckResult::AskUser);
    manager.add_rule(&mut shared, PermissionRule::allow_tool("B"), PermissionScope::Global);
    assert_eq!(manager.check(&shared, "B", ""), CheckResult::Allowed);
    assert_eq!(PermissionManager::new(other, "x").check(&shared, "B", ""), CheckResult::AskUser);
    assert_eq!(PermissionManager::new(other, "x").check(&shared, "A", ""), CheckResult::Allowed);
    assert_eq!(shared.get(one).unwrap().rules().len(), 1);
    shared.add_rule(one, PermissionRule::allow_tool("B"));
    assert_eq!(shared.get(one).unwrap().rules().len(), 1);
    let nowhere = GlobalRef { place: 7 };
    assert!(shared.get(nowhere).is_none());
    assert!(!shared.check(nowhere, "A", ""));
    assert!(SharedPermissions::default().get(one).is_none());
}

#[test]
fn a_request_may_have_details() {
    let request = PermissionRequest::new("Bash", "run a command", "ls");
    assert_eq!(request.tool_name, "Bash");
    assert_eq!(request.action_description, "run a command");
    assert_eq!(request.input, "ls");
    assert!(request.details.is_none());
    let request = request.with_details("in /tmp");
    assert_eq!(request.details, Some("in /tmp".to_string()));
    assert_eq!(request.input, "ls");
}
