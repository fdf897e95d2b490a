use dshns::context::{estimate_tokens, ConversationContextBuilder};
use dshns::domain::{Message, MessageRole};

#[test]
fn estimates_half_the_characters_plus_one() {
    assert_eq!(estimate_tokens(""), 1);
    assert_eq!(estimate_tokens("abcd"), 3);
    assert_eq!(estimate_tokens("中文字"), 2);
}

#[test]
fn small_history_is_sent_whole() {
    let builder = ConversationContextBuilder::new(1000);
    let history = vec![Message::user("hi".to_string()), Message::assistant("yo".to_string(), vec![], None)];
    let res = builder.build("sys", &history);
    assert!(!res.compacted);
    assert_eq!(res.messages.len(), 3);
    assert_eq!(res.messages[0].role, MessageRole::System);
    assert_eq!(res.messages[0].content, "sys");
    assert_eq!(res.estimated_tokens_before, 2 + 2 + 2);
    assert_eq!(res.estimated_tokens_after, res.estimated_tokens_before);
    assert!(res.working_memory.is_none());
}

#[test]
fn large_history_is_compacted_into_a_summary() {
    let builder = ConversationContextBuilder::new(50);
    let long = "x".repeat(100);
    let history = vec![
        Message::user(long.clone()),
        Message::user("second".to_string()),
        Message::user("third".to_string()),
    ];
    let res = builder.build("sys", &history);
    assert!(res.compacted);
    assert_eq!(res.estimated_tokens_before, 2 + 51 + 4 + 3);
    assert_eq!(res.messages.len(), 4);
    assert_eq!(res.messages[2].content, "second");
    assert_eq!(res.messages[3].content, "third");
    let summary = res.working_memory.clone().unwrap();
    assert_eq!(summary, format!("历史摘要（自动压缩）：\n- User: {}...", "x".repeat(80)));
    assert_eq!(res.messages[1].content, summary);
    assert_eq!(res.messages[1].role, MessageRole::System);
}

#[test]
fn newest_message_is_always_kept() {
    let builder = ConversationContextBuilder::new(10);
    let history = vec![Message::user("a".repeat(200))];
    let res = builder.build("sys", &history);
    assert!(res.compacted);
    assert!(res.working_memory.is_none());
    assert_eq!(res.messages.len(), 2);
    assert_eq!(res.estimated_tokens_after, 2 + 101);
}
