use picrust::hooks::{
    combine_results, HookContext, HookEvent, HookMatcher, HookRegistry, HookResult,
    PermissionDecision,
};
use std::cell::RefCell;
use std::rc::Rc;

type Plain = fn(&mut HookContext) -> HookResult;

fn silent(_ctx: &mut HookContext) -> HookResult {
    HookResult::none()
}

fn blocked(_ctx: &mut HookContext) -> HookResult {
    HookResult::deny("blocked")
}

fn approved(_ctx: &mut HookContext) -> HookResult {
    HookResult::allow()
}

fn step(event: HookEvent, tool: Option<&str>, short: bool) -> HookContext {
    HookContext {
        event,
        tool_name: tool.map(|s| s.to_string()),
        tool_input: None,
        short_circuit_on_deny: short,
    }
}

#[test]
fn test_hook_matcher_pattern() {
    let matcher =
        HookMatcher::with_pattern("Bash|Shell", |_ctx: &mut HookContext| HookResult::none())
            .unwrap();

    assert!(matcher.matches("Bash"));
    assert!(matcher.matches("Shell"));
    assert!(!matcher.matches("Read"));
    assert!(!matcher.matches("Write"));
}

#[test]
fn test_hook_matcher_no_pattern() {
    let matcher = HookMatcher::new(|_ctx: &mut HookContext| HookResult::none());

    assert!(matcher.matches("Bash"));
    assert!(matcher.matches("Read"));
    assert!(matcher.matches("anything"));
}

#[test]
fn patterns_may_be_anchored() {
    let matcher = HookMatcher::with_pattern("^Read$", silent).unwrap();
    assert!(matcher.matches("Read"));
    assert!(!matcher.matches("ReadAll"));
    let loose = HookMatcher::with_pattern("Read", silent).unwrap();
    assert!(loose.matches("ReadAll"));
}

#[test]
fn compiled_patterns_are_added() {
    let mut registry: HookRegistry<Plain> = HookRegistry::new();
    let event = HookEvent::PreToolUse;
    assert!(registry.add_compiled(event, regex::Regex::new("^Read$"), silent).is_ok());
    assert_eq!(registry.hook_count(event), 1);
    let broken = || "(".parse::<regex::Regex>();
    let said = broken().unwrap_err().to_string();
    let e = registry.add_compiled(event, broken(), silent).err().unwrap();
    assert_eq!(e.message, said);
    assert_eq!(registry.hook_count(event), 1);
}

#[test]
fn a_bad_pattern_is_refused() {
    let e = HookMatcher::with_pattern("(", silent).err().unwrap();
    assert!(e.message.contains("regex parse error"));
    let mut registry: HookRegistry<Plain> = HookRegistry::new();
    assert!(registry.add_with_pattern(HookEvent::PreToolUse, "(", silent).is_err());
    assert_eq!(registry.hook_count(HookEvent::PreToolUse), 0);
}

#[test]
fn test_combine_results() {
    assert_eq!(
        combine_results(HookResult::deny("x"), HookResult::allow()).decision,
        Some(PermissionDecision::Deny)
    );
    assert_eq!(
        combine_results(HookResult::allow(), HookResult::deny("x")).decision,
        Some(PermissionDecision::Deny)
    );

    assert_eq!(
        combine_results(HookResult::allow(), HookResult::ask()).decision,
        Some(PermissionDecision::Allow)
    );

    assert_eq!(
        combine_results(HookResult::ask(), HookResult::none()).decision,
        Some(PermissionDecision::Ask)
    );
}

#[test]
fn test_registry_add() {
    let mut registry: HookRegistry<Plain> = HookRegistry::new();

    registry.add(HookEvent::PreToolUse, silent);
    registry.add_with_pattern(HookEvent::PreToolUse, "Bash", blocked).unwrap();

    assert!(registry.has_hooks(HookEvent::PreToolUse));
    assert_eq!(registry.hook_count(HookEvent::PreToolUse), 2);
    assert!(!registry.has_hooks(HookEvent::PostToolUse));
}

#[test]
fn test_combine_deny_wins_over_allow() {
    let result = combine_results(HookResult::allow(), HookResult::deny("blocked"));
    assert_eq!(result.decision, Some(PermissionDecision::Deny));
    assert_eq!(result.reason, Some("blocked".to_string()));

    let result = combine_results(HookResult::deny("blocked"), HookResult::allow());
    assert_eq!(result.decision, Some(PermissionDecision::Deny));
}

#[test]
fn test_combine_deny_wins_over_all() {
    assert_eq!(
        combine_results(HookResult::deny("x"), HookResult::allow()).decision,
        Some(PermissionDecision::Deny)
    );

    assert_eq!(
        combine_results(HookResult::deny("x"), HookResult::ask()).decision,
        Some(PermissionDecision::Deny)
    );

    assert_eq!(
        combine_results(HookResult::deny("x"), HookResult::none()).decision,
        Some(PermissionDecision::Deny)
    );
}

#[test]
fn test_combine_allow_wins_over_ask_and_none() {
    assert_eq!(
        combine_results(HookResult::allow(), HookResult::ask()).decision,
        Some(PermissionDecision::Allow)
    );

    assert_eq!(
        combine_results(HookResult::allow(), HookResult::none()).decision,
        Some(PermissionDecision::Allow)
    );
}

#[test]
fn of_equal_results_the_first_stays() {
    let r = combine_results(HookResult::deny("first"), HookResult::deny("second"));
    assert_eq!(r.reason, Some("first".to_string()));
    let nothing = HookResult { decision: None, reason: Some("lost".to_string()) };
    assert_eq!(combine_results(nothing, HookResult::none()).reason, None);
}

#[test]
fn a_no_is_not_outvoted_in_any_order() {
    for order in 0..3 {
        let mut registry: HookRegistry<Plain> = HookRegistry::new();
        let hooks: Vec<Plain> = vec![approved, silent, approved];
        for (i, h) in hooks.into_iter().enumerate() {
            if i == order {
                registry.add(HookEvent::PreToolUse, blocked);
            }
            registry.add(HookEvent::PreToolUse, h);
        }
        let mut ctx = step(HookEvent::PreToolUse, Some("Bash"), false);
        let r = registry.run(&mut ctx);
        assert_eq!(r.decision, Some(PermissionDecision::Deny));
        assert_eq!(r.reason, Some("blocked".to_string()));
    }
}

#[test]
fn hooks_look_only_at_their_tools() {
    let mut registry: HookRegistry<Plain> = HookRegistry::new();
    registry.add_with_pattern(HookEvent::PreToolUse, "^Bash$", blocked).unwrap();
    registry.add_with_pattern(HookEvent::PreToolUse, "Read|Glob", approved).unwrap();
    let mut ctx = step(HookEvent::PreToolUse, Some("Bash"), false);
    assert_eq!(registry.run(&mut ctx).decision, Some(PermissionDecision::Deny));
    let mut ctx = step(HookEvent::PreToolUse, Some("Read"), false);
    assert_eq!(registry.run(&mut ctx).decision, Some(PermissionDecision::Allow));
    let mut ctx = step(HookEvent::PreToolUse, Some("Write"), false);
    assert_eq!(registry.run(&mut ctx).decision, None);
    let mut ctx = step(HookEvent::PostToolUse, Some("Bash"), false);
    assert_eq!(registry.run(&mut ctx).decision, None);
}

#[test]
fn patterns_do_not_count_without_a_tool() {
    let mut registry: HookRegistry<Plain> = HookRegistry::new();
    registry.add_with_pattern(HookEvent::UserPromptSubmit, "^Bash$", blocked).unwrap();
    let mut ctx = step(HookEvent::UserPromptSubmit, Some("Read"), false);
    assert_eq!(registry.run(&mut ctx).decision, Some(PermissionDecision::Deny));
    registry.add_with_pattern(HookEvent::PreToolUse, "^Bash$", approved).unwrap();
    let mut ctx = step(HookEvent::PreToolUse, None, false);
    assert_eq!(registry.run(&mut ctx).decision, Some(PermissionDecision::Allow));
}

fn counting(
    seen: Rc<RefCell<Vec<String>>>,
    name: &'static str,
    deny: bool,
) -> impl Fn(&mut HookContext) -> HookResult {
    move |ctx: &mut HookContext| {
        seen.borrow_mut().push(name.to_string());
        ctx.tool_name = Some("Changed".to_string());
        if deny {
            HookResult::deny(name)
        } else {
            HookResult::none()
        }
    }
}

#[test]
fn the_first_no_ends_a_round_only_if_asked_to() {
    for short in [false, true] {
        let seen = Rc::new(RefCell::new(Vec::new()));
        let mut registry = HookRegistry::new();
        for (name, deny) in [("a", false), ("b", true), ("c", true)] {
            registry.add(HookEvent::PreToolUse, counting(seen.clone(), name, deny));
        }
        let mut ctx = step(HookEvent::PreToolUse, Some("Bash"), short);
        let r = registry.run(&mut ctx);
        assert_eq!(r.reason, Some("b".to_string()));
        assert_eq!(ctx.tool_name, Some("Changed".to_string()));
        let want: Vec<String> = if short {
            vec!["a".to_string(), "b".to_string()]
        } else {
            vec!["a".to_string(), "b".to_string(), "c".to_string()]
        };
        assert_eq!(*seen.borrow(), want);
    }
}

#[test]
fn a_registry_begins_without_hooks() {
    let registry: HookRegistry<Plain> = HookRegistry::default();
    assert!(!registry.has_hooks(HookEvent::PreToolUse));
}
