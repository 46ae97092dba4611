use channels::approval::{
    answer, button_id, button_label, closing_text, excerpt, input_text, Choice, Reply,
    APPROVAL_TIMEOUT_SECS, EXCERPT_BYTES,
};
use channels::pending::PendingApprovals;
use serde_json::Value;
use tokio::sync::oneshot;

fn json(text: &str) -> Value {
    serde_json::from_str(text).unwrap()
}

#[test]
fn limits() {
    assert_eq!(APPROVAL_TIMEOUT_SECS, 300);
    assert_eq!(EXCERPT_BYTES, 1800);
}

#[test]
fn input_is_indented() {
    assert_eq!(
        input_text(&json("{\"command\":\"ls\",\"n\":[1,2]}")),
        "{\n  \"command\": \"ls\",\n  \"n\": [\n    1,\n    2\n  ]\n}"
    );
    assert_eq!(input_text(&Value::Null), "null");
}

#[test]
fn short_text_is_shown_whole() {
    assert_eq!(excerpt(""), "");
    let exact = "é".repeat(900);
    assert_eq!(excerpt(&exact), exact);
}

#[test]
fn long_text_is_cut() {
    let long = "ab".repeat(1000);
    assert_eq!(excerpt(&long), "ab".repeat(900));
    let wide = "é".repeat(1000);
    assert_eq!(excerpt(&wide), "é".repeat(900));
}

#[test]
fn a_cut_moves_back_to_a_whole_character() {
    let text = format!("a{}", "é".repeat(900));
    assert_eq!(text.len(), 1801);
    assert_eq!(excerpt(&text), format!("a{}", "é".repeat(899)));
    let fits = format!("{}é", "a".repeat(1798));
    assert_eq!(excerpt(&fits), fits);
    assert_eq!(excerpt(&format!("{}é", "a".repeat(1799))), "a".repeat(1799));
    assert_eq!(excerpt(&format!("{}é", "a".repeat(1800))), "a".repeat(1800));
    assert_eq!(excerpt(&format!("{}🔐", "a".repeat(1797))), "a".repeat(1797));
    let fits = format!("{}🔐", "a".repeat(1796));
    assert_eq!(excerpt(&format!("{}b", fits)), fits);
}

#[test]
fn no_longer_beginning_fits() {
    let text = "aé€🔐".repeat(200);
    let shown = excerpt(&text);
    assert!(text.starts_with(shown));
    assert!(shown.len() <= 1800);
    let next = text[shown.len()..].chars().next().unwrap();
    assert!(shown.len() + next.len_utf8() > 1800);
}

#[test]
fn buttons() {
    assert_eq!(button_id(Choice::Approve, "x-1"), "approve:x-1");
    assert_eq!(button_id(Choice::Always, "x-1"), "always:x-1");
    assert_eq!(button_id(Choice::Deny, "x-1"), "deny:x-1");
    assert_eq!(button_label(Choice::Approve), "✅ Yes");
    assert_eq!(button_label(Choice::Always), "🔁 Always (session)");
    assert_eq!(button_label(Choice::Deny), "❌ No");
}

#[test]
fn button_ids_differ() {
    let mut seen: Vec<String> = Vec::new();
    for id in ["", "a", "always:", "deny:"] {
        for choice in [Choice::Approve, Choice::Always, Choice::Deny] {
            let button = button_id(choice, id);
            assert!(!seen.contains(&button));
            seen.push(button);
        }
    }
}

#[test]
fn replies_amount_to_answers() {
    for approved in [true, false] {
        for always in [true, false] {
            assert_eq!(answer(Reply::Answered { approved, always }), (approved, always));
        }
    }
    assert_eq!(answer(Reply::Closed), (false, false));
    assert_eq!(answer(Reply::TimedOut), (false, false));
}

#[test]
fn closing_texts() {
    let answered = |approved: bool, always: bool| {
        closing_text(Reply::Answered { approved, always }).unwrap()
    };
    assert_eq!(answered(true, true), "🔁 Always approved (session)");
    assert_eq!(answered(false, true), "🔁 Always approved (session)");
    assert_eq!(answered(true, false), "✅ Approved");
    assert_eq!(answered(false, false), "❌ Denied");
    assert_eq!(closing_text(Reply::Closed), None);
    assert_eq!(closing_text(Reply::TimedOut).unwrap(), "⏱️ Approval timed out — denied");
}

#[test]
fn an_answer_arrives_once() {
    let mut table = PendingApprovals::new();
    let mut rx = table.open("a".to_string());
    let mut other = table.open("b".to_string());
    assert!(rx.try_recv().is_err());
    assert!(table.resolve("a", true, false));
    assert_eq!(rx.try_recv(), Ok((true, false)));
    assert!(!table.resolve("a", true, true));
    assert_eq!(other.try_recv(), Err(oneshot::error::TryRecvError::Empty));
    assert!(table.resolve("b", false, true));
    assert_eq!(other.try_recv(), Ok((false, true)));
}

#[test]
fn the_last_sender_of_an_id_gets_the_answer() {
    let mut table = PendingApprovals::new();
    let (first, mut early) = oneshot::channel();
    let (second, mut late) = oneshot::channel();
    table.insert("a".to_string(), first);
    table.insert("a".to_string(), second);
    assert_eq!(early.try_recv(), Err(oneshot::error::TryRecvError::Closed));
    assert!(table.resolve("a", true, true));
    assert_eq!(late.try_recv(), Ok((true, true)));
}

#[test]
fn an_answer_that_nobody_awaits_is_dropped() {
    let mut table = PendingApprovals::new();
    let rx = table.open("a".to_string());
    drop(rx);
    assert!(table.resolve("a", true, false));
    assert!(!table.resolve("a", true, false));
}

#[test]
fn taking_one_of_several() {
    let mut table = PendingApprovals::new();
    let mut waiting = Vec::new();
    for id in ["a", "b", "c", "d"] {
        waiting.push((id, table.open(id.to_string())));
    }
    assert!(table.take("e").is_none());
    let tx = table.take("b").unwrap();
    assert!(table.take("b").is_none());
    assert_eq!(tx.send((false, false)), Ok(()));
    assert_eq!(waiting[1].1.try_recv(), Ok((false, false)));
    for i in [3, 0, 2] {
        assert!(table.resolve(waiting[i].0, i == 0, i == 3));
        assert_eq!(waiting[i].1.try_recv(), Ok((i == 0, i == 3)));
    }
}
