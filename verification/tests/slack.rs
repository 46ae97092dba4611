use channels::approval::{AfterPrompt, Obstacle, Reply};
use channels::slack::prompt::SlackPrompt;
use channels::slack::{SlackStart, SlackState};
use serde_json::Value;
use std::sync::Arc;
use tokio::sync::oneshot;

type State = SlackState<&'static str>;

fn decided(state: &State, session_id: u128) -> Option<((bool, bool), Option<Obstacle>)> {
    match state.begin_approval(session_id) {
        SlackStart::Decided { answer, obstacle } => Some((answer, obstacle)),
        SlackStart::Ask { .. } => None,
    }
}

#[test]
fn slack_begins_empty() {
    for state in [State::new(), State::default()] {
        assert!(!state.is_connected());
        assert_eq!(state.client(), None);
        assert_eq!(state.bot_token(), None);
        assert_eq!(state.owner_channel_id(), None);
        assert_eq!(state.session_channel(0), None);
        assert!(!state.is_auto_approve_session());
        assert!(!state.is_user_allowed("U1"));
    }
}

#[test]
fn slack_allowed_users() {
    let mut state = State::new();
    state.update_allowed_users(vec!["U1".to_string(), "U2".to_string(), "U2".to_string()]);
    assert!(state.is_user_allowed("U1"));
    assert!(state.is_user_allowed("U2"));
    assert!(!state.is_user_allowed("u2"));
    assert!(!state.is_user_allowed(""));
    state.update_allowed_users(vec!["U3".to_string()]);
    assert!(!state.is_user_allowed("U1"));
    assert!(state.is_user_allowed("U3"));
    state.update_allowed_users(Vec::new());
    assert!(!state.is_user_allowed("U1"));
    assert!(!state.is_user_allowed("U3"));
}

#[test]
fn slack_connection() {
    let mut state = State::new();
    let first = Arc::new("first");
    state.set_connected(Arc::clone(&first), "t1".to_string(), Some("C5".to_string()));
    assert!(state.is_connected());
    assert!(Arc::ptr_eq(&state.client().unwrap(), &first));
    assert_eq!(state.bot_token().unwrap(), "t1");
    assert_eq!(state.owner_channel_id().unwrap(), "C5");
    state.set_connected(Arc::new("second"), "t2".to_string(), None);
    assert_eq!(*state.client().unwrap(), "second");
    assert_eq!(state.bot_token().unwrap(), "t2");
    assert_eq!(state.owner_channel_id().unwrap(), "C5");
    state.set_owner_channel("C6".to_string());
    assert_eq!(state.owner_channel_id().unwrap(), "C6");
}

#[test]
fn slack_session_channels() {
    let mut state = State::new();
    let session = uuid::Uuid::new_v4().as_u128();
    state.register_session_channel(session, "C1".to_string());
    state.register_session_channel(!session, "C2".to_string());
    assert_eq!(state.session_channel(session).unwrap(), "C1");
    assert_eq!(state.session_channel(!session).unwrap(), "C2");
    state.register_session_channel(session, "C3".to_string());
    assert_eq!(state.session_channel(session).unwrap(), "C3");
    assert_eq!(state.session_channel(session ^ 1), None);
}

#[test]
fn slack_pending_approvals() {
    let mut state = State::new();
    assert!(!state.resolve_pending_approval("a", true, true));
    let (tx, mut rx) = oneshot::channel();
    state.register_pending_approval("a".to_string(), tx);
    assert!(!state.resolve_pending_approval("b", true, true));
    assert!(state.resolve_pending_approval("a", false, true));
    assert_eq!(rx.try_recv(), Ok((false, true)));
    assert!(!state.resolve_pending_approval("a", true, false));
    assert!(!state.is_auto_approve_session());
}

#[test]
fn slack_obstacles_deny() {
    let mut state = State::new();
    state.set_owner_channel("C5".to_string());
    assert_eq!(decided(&state, 1), Some(((false, false), Some(Obstacle::NotConnected))));
    let mut state = State::new();
    state.set_connected(Arc::new("client"), "t".to_string(), None);
    assert_eq!(decided(&state, 1), Some(((false, false), Some(Obstacle::NoChannel))));
}

#[test]
fn slack_client_and_token_come_together() {
    let mut state = State::new();
    assert_eq!(state.client().is_some(), state.bot_token().is_some());
    state.set_connected(Arc::new("client"), "t".to_string(), None);
    state.update_allowed_users(Vec::new());
    assert_eq!(state.client().is_some(), state.bot_token().is_some());
}

#[test]
fn slack_routes_to_session_then_owner() {
    let mut state = State::new();
    state.set_connected(Arc::new("client"), "t".to_string(), Some("C5".to_string()));
    state.register_session_channel(1, "C9".to_string());
    for (session, channel) in [(1, "C9"), (2, "C5")] {
        match state.begin_approval(session) {
            SlackStart::Ask { client, bot_token, channel_id } => {
                assert_eq!(*client, "client");
                assert_eq!(bot_token, "t");
                assert_eq!(channel_id, channel);
            }
            SlackStart::Decided { .. } => panic!("decided"),
        }
    }
}

#[test]
fn slack_auto_approval_needs_nothing_else() {
    let mut state = State::new();
    state.set_auto_approve_session();
    assert!(state.is_auto_approve_session());
    assert_eq!(decided(&state, 1), Some(((true, true), None)));
}

#[test]
fn slack_request_from_post_to_answer() {
    let mut state = State::new();
    let mut rx = match state.after_prompt("a".to_string(), true) {
        AfterPrompt::Wait(rx) => rx,
        AfterPrompt::Decided(_) => panic!("decided"),
    };
    assert!(state.resolve_pending_approval("a", true, true));
    let (approved, always) = rx.try_recv().unwrap();
    let outcome = state.conclude_approval(Reply::Answered { approved, always });
    assert_eq!(outcome.decision, (true, true));
    assert_eq!(outcome.closing_text.unwrap(), "🔁 Always approved (session)");
    assert_eq!(decided(&state, 77), Some(((true, true), None)));
}

#[test]
fn slack_unposted_request_is_denied() {
    let mut state = State::new();
    match state.after_prompt("a".to_string(), false) {
        AfterPrompt::Wait(_) => panic!("waits"),
        AfterPrompt::Decided(answer) => assert_eq!(answer, (false, false)),
    }
    assert!(!state.resolve_pending_approval("a", true, true));
}

#[test]
fn slack_outcomes() {
    let mut state = State::new();
    let outcome = state.conclude_approval(Reply::Answered { approved: true, always: false });
    assert_eq!(outcome.decision, (true, false));
    assert_eq!(outcome.closing_text.unwrap(), "✅ Approved");
    let outcome = state.conclude_approval(Reply::Answered { approved: false, always: false });
    assert_eq!(outcome.decision, (false, false));
    assert_eq!(outcome.closing_text.unwrap(), "❌ Denied");
    let outcome = state.conclude_approval(Reply::Closed);
    assert_eq!(outcome.decision, (false, false));
    assert_eq!(outcome.closing_text, None);
    let outcome = state.conclude_approval(Reply::TimedOut);
    assert_eq!(outcome.decision, (false, false));
    assert_eq!(outcome.closing_text.unwrap(), "⏱️ Approval timed out — denied");
    assert!(!state.is_auto_approve_session());
    let outcome = state.conclude_approval(Reply::Answered { approved: false, always: true });
    assert_eq!(outcome.decision, (false, true));
    assert!(state.is_auto_approve_session());
}

#[test]
fn slack_prompt() {
    let prompt = SlackPrompt::compose("id".to_string(), "bash", "{}");
    assert_eq!(prompt.approval_id, "id");
    assert_eq!(
        prompt.text,
        "🔐 *Tool Approval Required*\n\nTool: `bash`\nInput:\n```\n{}\n```"
    );
    let buttons: Vec<(&str, &str, Option<&str>)> = prompt
        .buttons
        .iter()
        .map(|b| (b.action_id.as_str(), b.label.as_str(), b.style.as_deref()))
        .collect();
    assert_eq!(
        buttons,
        vec![
            ("approve:id", "✅ Yes", Some("primary")),
            ("always:id", "🔁 Always (session)", None),
            ("deny:id", "❌ No", Some("danger")),
        ]
    );
}

#[test]
fn slack_prompt_for_a_call() {
    let input: Value = serde_json::from_str("{\"command\":\"ls\"}").unwrap();
    let prompt = SlackPrompt::new("bash", &input);
    assert_eq!(
        prompt.text,
        "🔐 *Tool Approval Required*\n\nTool: `bash`\nInput:\n```\n{\n  \"command\": \"ls\"\n}\n```"
    );
    let id = uuid::Uuid::parse_str(&prompt.approval_id).unwrap();
    assert_eq!(id.get_version_num(), 4);
    assert_eq!(prompt.buttons[2].action_id, format!("deny:{}", prompt.approval_id));
    let split = Value::String("é".repeat(1000));
    let prompt = SlackPrompt::new("t", &split);
    assert!(prompt.text.ends_with(&format!("Input:\n```\n\"{}\n```", "é".repeat(899))));
    assert_eq!(prompt.buttons.len(), 3);
}

#[test]
fn slack_second_registration_leaves_the_first_unanswered() {
    let mut state = State::new();
    let (tx1, mut rx1) = oneshot::channel();
    let (tx2, mut rx2) = oneshot::channel();
    state.register_pending_approval("a".to_string(), tx1);
    state.register_pending_approval("a".to_string(), tx2);
    assert_eq!(rx1.try_recv(), Err(oneshot::error::TryRecvError::Closed));
    assert_eq!(rx2.try_recv(), Err(oneshot::error::TryRecvError::Empty));
    assert!(state.resolve_pending_approval("a", true, false));
    assert_eq!(rx2.try_recv(), Ok((true, false)));
    assert!(!state.resolve_pending_approval("a", true, false));
}

#[test]
fn slack_reposted_request_leaves_the_first_unanswered() {
    let mut state = State::new();
    let (tx, mut early) = oneshot::channel();
    state.register_pending_approval("a".to_string(), tx);
    let mut late = match state.after_prompt("a".to_string(), true) {
        AfterPrompt::Wait(rx) => rx,
        AfterPrompt::Decided(_) => panic!("decided"),
    };
    assert_eq!(early.try_recv(), Err(oneshot::error::TryRecvError::Closed));
    assert!(state.resolve_pending_approval("a", false, false));
    assert_eq!(late.try_recv(), Ok((false, false)));
}
