//! The agent daemon: what a connection does with requests.

use picrust::loop_server::{
    auth, model_name, replay, ClientRequest, Connection, LoopAction, LoopConfig, LoopEvent, Notice,
    Pending, MAX_TOKENS,
};
use picrust::messages::Message;

fn request(kind: &str, session: Option<&str>) -> ClientRequest {
    ClientRequest {
        msg_type: kind.to_string(),
        session_id: session.map(|s| s.to_string()),
        content: None,
        config: None,
        request_id: None,
        answers: None,
        model: None,
        max_tokens: None,
    }
}

fn run(session: &str, content: &str) -> LoopEvent {
    LoopEvent::Request(ClientRequest {
        content: Some(content.to_string()),
        config: Some(LoopConfig { stream: true, think: true, no_cache: false }),
        ..request("run", Some(session))
    })
}

fn with_session(session: &str) -> Connection {
    let mut c = Connection::new();
    c.step(run(session, "hi"));
    c.step(LoopEvent::SessionCreated { ok: true });
    c
}

#[test]
fn the_first_message_makes_a_session() {
    let mut c = Connection::new();
    let acts = c.step(run("s", "hi"));
    assert_eq!(acts.len(), 1);
    assert!(matches!(&acts[0], LoopAction::CreateSession { session_id } if session_id == "s"));
    let acts = c.step(LoopEvent::SessionCreated { ok: true });
    assert_eq!(acts.len(), 3);
    match &acts[0] {
        LoopAction::Spawn { session_id, setup } => {
            assert_eq!(session_id, "s");
            assert!(setup.streaming);
            assert_eq!(setup.thinking, Some(16000));
            assert_eq!(setup.prompt_caching, Some(true));
            assert!(setup.skip_permissions);
        }
        _ => panic!("expected an agent"),
    }
    assert!(matches!(&acts[1], LoopAction::Tell(Notice::Created { session_id, .. }) if session_id == "s"));
    assert!(matches!(&acts[2], LoopAction::SendInput { content, .. } if content == "hi"));
    let acts = c.step(run("s", "again"));
    assert_eq!(acts.len(), 1);
    assert!(matches!(&acts[0], LoopAction::SendInput { content, .. } if content == "again"));
}

#[test]
fn a_session_that_is_not_made_is_dropped() {
    let mut c = Connection::new();
    c.step(run("s", "hi"));
    c.step(LoopEvent::SessionCreated { ok: false });
    assert!(matches!(c.pending, Pending::Idle));
    let acts = c.step(run("s", "hi"));
    assert!(matches!(&acts[0], LoopAction::CreateSession { .. }));
}

#[test]
fn requests_without_a_session_do_nothing() {
    let mut c = Connection::new();
    assert!(c.step(LoopEvent::Request(request("run", None))).is_empty());
    assert!(c.step(LoopEvent::Request(request("run", Some("")))).is_empty());
    assert!(c.step(LoopEvent::Request(request("fly", Some("s")))).is_empty());
    assert!(matches!(c.pending, Pending::Idle));
}

#[test]
fn empty_input_is_not_handed_on() {
    let mut c = with_session("s");
    assert!(c.step(run("s", "")).is_empty());
}

#[test]
fn answers_go_to_the_session_that_asked() {
    let mut c = with_session("s");
    let answer = |sid: &str| {
        LoopEvent::Request(ClientRequest {
            request_id: Some("r".to_string()),
            answers: Some(vec![("h".to_string(), "a".to_string())]),
            ..request("ask_response", Some(sid))
        })
    };
    let acts = c.step(answer("s"));
    match &acts[0] {
        LoopAction::SendAnswers { request_id, answers, .. } => {
            assert_eq!(request_id, "r");
            assert_eq!(answers, &vec![("h".to_string(), "a".to_string())]);
        }
        _ => panic!("expected answers"),
    }
    assert!(c.step(answer("other")).is_empty());
}

#[test]
fn sessions_are_listed() {
    let mut c = Connection::new();
    let acts = c.step(LoopEvent::Request(request("list_sessions", Some("*"))));
    assert!(matches!(acts[0], LoopAction::ListSessions));
    let acts = c.step(LoopEvent::SessionNames(vec!["a".to_string(), "b".to_string()]));
    match &acts[0] {
        LoopAction::Tell(Notice::SessionList { sessions }) => {
            assert_eq!(sessions, &vec!["a".to_string(), "b".to_string()]);
        }
        _ => panic!("expected a list"),
    }
}

#[test]
fn a_resumed_session_tells_its_history() {
    let mut c = Connection::new();
    let acts = c.step(LoopEvent::Request(request("resume_session", Some("s"))));
    assert!(matches!(&acts[0], LoopAction::CheckSession { session_id } if session_id == "s"));
    let acts = c.step(LoopEvent::SessionExists(true));
    assert!(acts.iter().any(|a| matches!(a, LoopAction::LoadSession { .. })));
    let acts = c.step(LoopEvent::SessionLoaded(Ok(())));
    assert!(acts.iter().any(|a| matches!(a, LoopAction::Spawn { .. })));
    let acts = c.step(LoopEvent::History(Some(vec![
        Message::user("hi"),
        Message::assistant("yes"),
        Message::assistant(""),
    ])));
    let told: Vec<&str> = acts
        .iter()
        .filter_map(|a| match a {
            LoopAction::Tell(Notice::SystemMsg { message }) => Some(message.as_str()),
            _ => None,
        })
        .collect();
    assert!(told.contains(&"[History] User: hi"));
    assert!(told.contains(&"[History] Assistant: yes"));
    assert!(matches!(c.pending, Pending::Idle));
}

#[test]
fn history_is_told_in_order() {
    let acts = replay(&vec![Message::user("a"), Message::assistant("b"), Message::user("c")]);
    assert_eq!(acts.len(), 3);
    assert!(
        matches!(&acts[2], LoopAction::Tell(Notice::SystemMsg { message }) if message == "[History] User: c")
    );
}

#[test]
fn the_model_is_changed() {
    let mut c = Connection::new();
    let set = ClientRequest { model: Some("m".to_string()), ..request("set_model", Some("s")) };
    let acts = c.step(LoopEvent::Request(set));
    assert!(
        matches!(&acts[0], LoopAction::ChangeModel { model, max_tokens } if model == "m" && *max_tokens == MAX_TOKENS)
    );
    assert!(matches!(&acts[1], LoopAction::Tell(Notice::ModelChanged { model }) if model == "m"));
}

#[test]
fn compacting_lets_the_agent_go() {
    let mut c = with_session("s");
    let acts = c.step(LoopEvent::Request(request("compact", Some("s"))));
    assert!(matches!(&acts[0], LoopAction::Drop { .. }));
    assert!(matches!(&acts[1], LoopAction::LoadSession { .. }));
    let acts = c.step(LoopEvent::SessionLoaded(Ok(())));
    assert!(acts
        .iter()
        .any(|a| matches!(a, LoopAction::Tell(Notice::SessionCompacted { session_id }) if session_id == "s")));
}

#[test]
fn every_agent_is_shut_down_at_the_end() {
    let mut c = with_session("s");
    c.step(run("t", "hi"));
    c.step(LoopEvent::SessionCreated { ok: true });
    let acts = c.close();
    assert_eq!(acts.len(), 2);
    assert!(acts.iter().all(|a| matches!(a, LoopAction::Shutdown { .. })));
    assert!(c.close().is_empty());
}

#[test]
fn the_environment_names_the_model() {
    assert_eq!(
        auth(None, None).err(),
        Some("OPENAI_API_KEY environment variable not set".to_string())
    );
    let a = auth(Some("k".to_string()), None).ok().unwrap();
    assert_eq!(a.api_key, "k");
    assert_eq!(a.base_url, "https://api.openai.com/v1/chat/completions");
    assert_eq!(auth(Some("k".to_string()), Some("u".to_string())).ok().unwrap().base_url, "u");
    assert_eq!(model_name(None), "gpt-4o");
    assert_eq!(model_name(Some("m".to_string())), "m");
}
