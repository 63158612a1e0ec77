use agent_core::context::{
    total_tokens, ContextManager, Message, profile_update_wanted, summary_preview_prompt,
};
use agent_core::llm::estimate_tokens;

fn msg(role: &str, content: &str, tokens: i32) -> Message {
    Message { role: role.to_string(), content: content.to_string(), token_count: tokens }
}

fn chat_of(n: usize, tokens_each: i32) -> Vec<Message> {
    let mut msgs = Vec::new();
    for i in 0..n {
        let role = if i % 2 == 0 { "user" } else { "assistant" };
        msgs.push(msg(role, &format!("turn {}", i), tokens_each));
    }
    msgs
}

#[test]
fn totals_sum_the_turn_counts() {
    let msgs = chat_of(5, 100);
    assert_eq!(total_tokens(&msgs), 500);
    assert_eq!(total_tokens(&Vec::new()), 0);
}

#[test]
fn under_budget_conversations_are_left_alone() {
    let mgr = ContextManager::new(4000);
    let msgs = chat_of(10, 100);
    assert!(mgr.check_and_prune(&msgs).is_none());
}

#[test]
fn short_conversations_are_never_pruned() {
    // Four turns, far over budget: pruning would destroy the conversation.
    let mgr = ContextManager::new(100);
    let msgs = chat_of(4, 1000);
    assert!(mgr.check_and_prune(&msgs).is_none());
    assert_eq!(msgs.len(), 4);
}

#[test]
fn five_turns_over_budget_are_pruned() {
    let mgr = ContextManager::new(100);
    let msgs = chat_of(5, 1000);
    let plan = mgr.check_and_prune(&msgs).expect("must prune");
    assert_eq!(plan.keep_count, 3);
    assert_eq!(plan.summary_input, "user: turn 0\nassistant: turn 1\n");
}

#[test]
fn budget_boundary_triggers_pruning() {
    let mgr = ContextManager::new(500);
    let msgs = chat_of(5, 100);
    assert!(mgr.check_and_prune(&msgs).is_some());
    let mgr_above = ContextManager::new(501);
    assert!(mgr_above.check_and_prune(&msgs).is_none());
}

#[test]
fn apply_prune_replaces_the_oldest_half_with_one_summary_turn() {
    let mgr = ContextManager::new(100);
    let mut msgs = chat_of(6, 1000);
    let plan = mgr.check_and_prune(&msgs).expect("must prune");
    assert_eq!(plan.keep_count, 3);
    let before_total = total_tokens(&msgs);
    mgr.apply_prune(&mut msgs, plan.keep_count, "they discussed turns");
    assert_eq!(msgs.len(), 4);
    assert_eq!(msgs[0].role, "system");
    assert_eq!(msgs[0].content, "[Previous conversation summary]: they discussed turns");
    assert_eq!(msgs[0].token_count, estimate_tokens("they discussed turns"));
    assert_eq!(msgs[1].content, "turn 3");
    assert_eq!(msgs[2].content, "turn 4");
    assert_eq!(msgs[3].content, "turn 5");
    assert!(total_tokens(&msgs) < before_total);
}

#[test]
fn apply_prune_tolerates_growth_since_the_decision() {
    let mgr = ContextManager::new(100);
    let mut msgs = chat_of(6, 10);
    // A turn arrives between the decision and the deletion; the keep count
    // applies to the live log, so the newcomer survives.
    msgs.push(msg("user", "late turn", 10));
    mgr.apply_prune(&mut msgs, 3, "summary");
    assert_eq!(msgs.len(), 4);
    assert_eq!(msgs[3].content, "late turn");
}

#[test]
fn token_estimates_round_up_by_four_characters() {
    assert_eq!(estimate_tokens(""), 0);
    assert_eq!(estimate_tokens("abc"), 1);
    assert_eq!(estimate_tokens("abcd"), 1);
    assert_eq!(estimate_tokens("abcde"), 2);
    assert_eq!(estimate_tokens(&"z".repeat(4000)), 1000);
}

#[test]
fn profile_updates_follow_the_sentinel() {
    assert!(!profile_update_wanted(""));
    assert!(!profile_update_wanted("NO_UPDATE"));
    assert!(!profile_update_wanted("Sure thing: NO_UPDATE needed"));
    assert!(profile_update_wanted("The user lives in Tashkent."));
}

#[test]
fn profile_prompt_embeds_the_stored_profile() {
    let mgr = ContextManager::new(4000);
    let msgs = vec![msg("user", "hello", 1)];
    let (system, user) = mgr.profile_prompt("Name: Ada", &msgs);
    assert!(system.starts_with("You are a profile updater."));
    assert!(system.contains("Current profile:\nName: Ada\n"));
    assert!(system.ends_with("If nothing new is found, respond with exactly: NO_UPDATE"));
    assert_eq!(user, "user: hello\n");
}

#[test]
fn profile_prompt_marks_an_empty_profile() {
    let mgr = ContextManager::new(4000);
    let (system, _) = mgr.profile_prompt("", &Vec::new());
    assert!(system.contains("Current profile:\n(empty - no info yet)\n"));
}

#[test]
fn profile_prompt_reads_only_the_last_ten_turns() {
    let mgr = ContextManager::new(4000);
    let msgs = chat_of(12, 1);
    let (_, user) = mgr.profile_prompt("p", &msgs);
    assert!(!user.contains("turn 0\n"));
    assert!(!user.contains("turn 1\n"));
    assert!(user.contains("turn 2\n"));
    assert!(user.contains("turn 11\n"));
}

#[test]
fn summary_preview_labels_roles_and_cuts_long_content() {
    let long = "m".repeat(250);
    let msgs = vec![
        msg("user", "hi", 1),
        msg("assistant", &long, 1),
        msg("system", "note", 1),
    ];
    let (system, user) = summary_preview_prompt(&msgs);
    assert_eq!(
        system,
        "Summarize this conversation in 1-2 short sentences. Be concise and capture the key topic."
    );
    let expected = format!("User: hi\nAssistant: {}\nSystem: note\n", "m".repeat(200));
    assert_eq!(user, expected);
}
