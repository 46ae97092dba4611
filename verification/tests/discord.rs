use channels::approval::{AfterPrompt, Obstacle, Reply};
use channels::discord::prompt::{ButtonStyle, DiscordPrompt};
use channels::discord::{DiscordStart, DiscordState};
use serde_json::Value;
use serenity::http::Http;
use std::sync::Arc;
use tokio::sync::oneshot;

fn client() -> Arc<Http> {
    Arc::new(Http::new("token"))
}

fn decided(state: &DiscordState, session_id: u128) -> Option<(bool, Option<Obstacle>)> {
    match state.begin_approval(session_id) {
        DiscordStart::Decided { approved, obstacle } => Some((approved, obstacle)),
        DiscordStart::Ask { .. } => None,
    }
}

fn asked_in(state: &DiscordState, session_id: u128) -> Option<u64> {
    match state.begin_approval(session_id) {
        DiscordStart::Decided { .. } => None,
        DiscordStart::Ask { channel_id, .. } => Some(channel_id),
    }
}

#[test]
fn discord_begins_empty() {
    for state in [DiscordState::new(), DiscordState::default()] {
        assert!(!state.is_connected());
        assert!(state.http().is_none());
        assert_eq!(state.owner_channel_id(), None);
        assert_eq!(state.bot_user_id(), None);
        assert_eq!(state.guild_id(), None);
        assert_eq!(state.session_channel(0), None);
        assert!(!state.is_auto_approve_session());
        assert!(!state.is_user_allowed(42));
    }
}

#[test]
fn discord_allowed_users() {
    let mut state = DiscordState::new();
    state.update_allowed_users(vec![1, 2, 2]);
    assert!(state.is_user_allowed(1));
    assert!(state.is_user_allowed(2));
    assert!(!state.is_user_allowed(3));
    state.update_allowed_users(vec![3]);
    assert!(!state.is_user_allowed(1));
    assert!(state.is_user_allowed(3));
    state.update_allowed_users(Vec::new());
    assert!(!state.is_user_allowed(1));
    assert!(!state.is_user_allowed(3));
}

#[test]
fn discord_connection() {
    let mut state = DiscordState::new();
    let first = client();
    state.set_connected(Arc::clone(&first), Some(5));
    assert!(state.is_connected());
    assert!(Arc::ptr_eq(&state.http().unwrap(), &first));
    assert_eq!(state.owner_channel_id(), Some(5));
    let second = client();
    state.set_connected(Arc::clone(&second), None);
    assert!(Arc::ptr_eq(&state.http().unwrap(), &second));
    assert_eq!(state.owner_channel_id(), Some(5));
    state.set_owner_channel(6);
    assert_eq!(state.owner_channel_id(), Some(6));
}

#[test]
fn discord_ids() {
    let mut state = DiscordState::new();
    state.set_bot_user_id(7);
    state.set_guild_id(8);
    assert_eq!(state.bot_user_id(), Some(7));
    assert_eq!(state.guild_id(), Some(8));
}

#[test]
fn discord_session_channels() {
    let mut state = DiscordState::new();
    let session = uuid::Uuid::new_v4().as_u128();
    state.register_session_channel(session, 1);
    state.register_session_channel(!session, 2);
    assert_eq!(state.session_channel(session), Some(1));
    assert_eq!(state.session_channel(!session), Some(2));
    state.register_session_channel(session, 3);
    assert_eq!(state.session_channel(session), Some(3));
    assert_eq!(state.session_channel(session ^ 1), None);
}

#[test]
fn discord_pending_approvals() {
    let mut state = DiscordState::new();
    assert!(!state.resolve_pending_approval("a", true, true));
    let (tx, mut rx) = oneshot::channel();
    state.register_pending_approval("a".to_string(), tx);
    assert!(!state.resolve_pending_approval("b", true, true));
    assert!(state.resolve_pending_approval("a", true, false));
    assert_eq!(rx.try_recv(), Ok((true, false)));
    assert!(!state.resolve_pending_approval("a", true, false));
    assert!(!state.is_auto_approve_session());
}

#[test]
fn discord_obstacles_deny() {
    let mut state = DiscordState::new();
    state.set_owner_channel(5);
    assert_eq!(decided(&state, 1), Some((false, Some(Obstacle::NotConnected))));
    let mut state = DiscordState::new();
    state.set_connected(client(), None);
    assert_eq!(decided(&state, 1), Some((false, Some(Obstacle::NoChannel))));
}

#[test]
fn discord_routes_to_session_then_owner() {
    let mut state = DiscordState::new();
    let http = client();
    state.set_connected(Arc::clone(&http), Some(5));
    state.register_session_channel(1, 9);
    assert_eq!(asked_in(&state, 1), Some(9));
    assert_eq!(asked_in(&state, 2), Some(5));
    match state.begin_approval(1) {
        DiscordStart::Ask { http: used, .. } => assert!(Arc::ptr_eq(&used, &http)),
        DiscordStart::Decided { .. } => panic!("decided"),
    }
}

#[test]
fn discord_auto_approval_needs_nothing_else() {
    let mut state = DiscordState::new();
    state.set_auto_approve_session();
    assert!(state.is_auto_approve_session());
    assert_eq!(decided(&state, 1), Some((true, None)));
}

#[test]
fn discord_request_from_post_to_answer() {
    let mut state = DiscordState::new();
    state.set_connected(client(), Some(5));
    let mut rx = match state.after_prompt("a".to_string(), true) {
        AfterPrompt::Wait(rx) => rx,
        AfterPrompt::Decided(_) => panic!("decided"),
    };
    assert!(state.resolve_pending_approval("a", true, true));
    let (approved, always) = rx.try_recv().unwrap();
    let outcome = state.conclude_approval(Reply::Answered { approved, always });
    assert!(outcome.decision);
    assert_eq!(outcome.closing_text.unwrap(), "🔁 Always approved (session)");
    state.set_connected(client(), None);
    state.update_allowed_users(vec![1]);
    assert_eq!(decided(&state, 77), Some((true, None)));
}

#[test]
fn discord_unposted_request_is_denied() {
    let mut state = DiscordState::new();
    match state.after_prompt("a".to_string(), false) {
        AfterPrompt::Wait(_) => panic!("waits"),
        AfterPrompt::Decided(approved) => assert!(!approved),
    }
    assert!(!state.resolve_pending_approval("a", true, true));
}

#[test]
fn discord_outcomes() {
    let mut state = DiscordState::new();
    let outcome = state.conclude_approval(Reply::Answered { approved: true, always: false });
    assert!(outcome.decision);
    assert_eq!(outcome.closing_text.unwrap(), "✅ Approved");
    let outcome = state.conclude_approval(Reply::Answered { approved: false, always: false });
    assert!(!outcome.decision);
    assert_eq!(outcome.closing_text.unwrap(), "❌ Denied");
    let outcome = state.conclude_approval(Reply::Closed);
    assert!(!outcome.decision);
    assert_eq!(outcome.closing_text, None);
    let outcome = state.conclude_approval(Reply::TimedOut);
    assert!(!outcome.decision);
    assert_eq!(outcome.closing_text.unwrap(), "⏱️ Approval timed out — denied");
    assert!(!state.is_auto_approve_session());
    let outcome = state.conclude_approval(Reply::Answered { approved: false, always: true });
    assert!(!outcome.decision);
    assert!(state.is_auto_approve_session());
}

#[test]
fn discord_late_click_still_finds_the_request() {
    let mut state = DiscordState::new();
    let after = state.after_prompt("a".to_string(), true);
    drop(after);
    assert!(!state.conclude_approval(Reply::TimedOut).decision);
    assert!(state.resolve_pending_approval("a", true, true));
    assert!(!state.is_auto_approve_session());
}

#[test]
fn discord_prompt() {
    let prompt = DiscordPrompt::compose("id".to_string(), "bash", "{}");
    assert_eq!(prompt.approval_id, "id");
    assert_eq!(
        prompt.text,
        "🔐 **Tool Approval Required**\n\nTool: `bash`\nInput:\n```json\n{}\n```"
    );
    let buttons: Vec<(&str, &str, ButtonStyle)> = prompt
        .buttons
        .iter()
        .map(|b| (b.custom_id.as_str(), b.label.as_str(), b.style))
        .collect();
    assert_eq!(
        buttons,
        vec![
            ("approve:id", "✅ Yes", ButtonStyle::Success),
            ("always:id", "🔁 Always (session)", ButtonStyle::Primary),
            ("deny:id", "❌ No", ButtonStyle::Danger),
        ]
    );
}

#[test]
fn discord_prompt_for_a_call() {
    let input: Value = serde_json::from_str("{\"command\":\"ls\"}").unwrap();
    let prompt = DiscordPrompt::new("bash", &input);
    assert_eq!(
        prompt.text,
        "🔐 **Tool Approval Required**\n\nTool: `bash`\nInput:\n```json\n{\n  \"command\": \"ls\"\n}\n```"
    );
    let id = uuid::Uuid::parse_str(&prompt.approval_id).unwrap();
    assert_eq!(id.get_version_num(), 4);
    assert_eq!(id.to_string(), prompt.approval_id);
    assert_eq!(prompt.buttons[0].custom_id, format!("approve:{}", prompt.approval_id));
    assert_ne!(DiscordPrompt::new("bash", &input).approval_id, prompt.approval_id);
}

#[test]
fn discord_prompt_shows_the_beginning() {
    let long = Value::String("x".repeat(3000));
    let prompt = DiscordPrompt::new("t", &long);
    assert!(prompt.text.ends_with(&format!("json\n\"{}\n```", "x".repeat(1799))));
    let split = Value::String("é".repeat(1000));
    let prompt = DiscordPrompt::new("t", &split);
    assert!(prompt.text.ends_with(&format!("json\n\"{}\n```", "é".repeat(899))));
    assert_eq!(prompt.buttons.len(), 3);
}

#[test]
fn discord_second_registration_leaves_the_first_unanswered() {
    let mut state = DiscordState::new();
    let (tx1, mut rx1) = oneshot::channel();
    let (tx2, mut rx2) = oneshot::channel();
    state.register_pending_approval("a".to_string(), tx1);
    state.register_pending_approval("a".to_string(), tx2);
    assert_eq!(rx1.try_recv(), Err(oneshot::error::TryRecvError::Closed));
    assert_eq!(rx2.try_recv(), Err(oneshot::error::TryRecvError::Empty));
    assert!(state.resolve_pending_approval("a", true, false));
    assert_eq!(rx2.try_recv(), Ok((true, false)));
    assert!(!state.resolve_pending_approval("a", true, false));
}

#[test]
fn discord_reposted_request_leaves_the_first_unanswered() {
    let mut state = DiscordState::new();
    let (tx, mut early) = oneshot::channel();
    state.register_pending_approval("a".to_string(), tx);
    let mut late = match state.after_prompt("a".to_string(), true) {
        AfterPrompt::Wait(rx) => rx,
        AfterPrompt::Decided(_) => panic!("decided"),
    };
    assert_eq!(early.try_recv(), Err(oneshot::error::TryRecvError::Closed));
    assert!(state.resolve_pending_approval("a", false, false));
    assert_eq!(late.try_recv(), Ok((false, false)));
}
