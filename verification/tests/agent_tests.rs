use solana_smart_stack::agent::{
    reply_text, sanitize_reply, AIAgent, AgentReplyError, RecoveryStrategy, MODEL_ENDPOINT,
};

fn strategy(action: &str) -> RecoveryStrategy {
    RecoveryStrategy {
        action: action.to_string(),
        refresh_blockhash: true,
        modified_tip: 15_000,
        reasoning: "expired blockhash".to_string(),
    }
}

#[test]
fn plain_json_reply_is_only_trimmed() {
    assert_eq!(sanitize_reply("  {\"action\":\"RETRY\"}\n"), "{\"action\":\"RETRY\"}");
}

#[test]
fn json_fenced_reply_loses_its_fences() {
    assert_eq!(sanitize_reply("```json\n{\"a\":1}\n```"), "{\"a\":1}");
    assert_eq!(sanitize_reply("\n ```json {\"a\":1} \n```  "), "{\"a\":1}");
}

#[test]
fn json_fence_without_closing_line_loses_its_opening() {
    assert_eq!(sanitize_reply("```json\n{\"a\":1}```"), "{\"a\":1}");
    assert_eq!(sanitize_reply("```json{\"a\":1}"), "{\"a\":1}");
}

#[test]
fn bare_fenced_reply_loses_both_fences() {
    let j = r#"{"action":"HOLD","refresh_blockhash":false,"modified_tip":5000,"reasoning":"r"}"#;
    assert_eq!(sanitize_reply(&format!("```\n{}\n```", j)), j);
    assert_eq!(reply_text(Some(format!("```\n{}\n```", j))).ok(), Some(j.to_string()));
    assert_eq!(sanitize_reply("```{\"a\":1}"), "{\"a\":1}");
    assert_eq!(sanitize_reply("```"), "");
    assert_eq!(sanitize_reply("```\n```"), "");
}

#[test]
fn missing_content_is_an_error() {
    let r = reply_text(None);
    assert!(matches!(r, Err(AgentReplyError::MissingContent)));
    if let Err(e) = r {
        assert_eq!(
            e.message(),
            "Failed to locate target message content within OpenRouter payload metadata"
        );
    }
    assert_eq!(reply_text(Some(" ```json\n{}\n``` ".to_string())).ok(), Some("{}".to_string()));
}

#[test]
fn failure_prompt_text() {
    assert_eq!(
        AIAgent::failure_prompt("Blockhash not found", 10_000),
        "CRITICAL FAULT ENCOUNTERED:\nLog Data: \"Blockhash not found\"\nCurrent Active Tip: 10000 lamports\n\nGenerate JSON Strategy:"
    );
}

#[test]
fn agent_credentials() {
    let agent = AIAgent::new("SECRET-REDACTED".to_string());
    assert_eq!(agent.api_key, "SECRET-REDACTED");
    assert_eq!(agent.model_endpoint, MODEL_ENDPOINT);
    assert_eq!(agent.model_endpoint, "https://openrouter.ai/api/v1/chat/completions");
    assert_eq!(agent.authorization_header(), "Bearer SECRET-REDACTED");
}

#[test]
fn only_exact_retry_asks_for_a_retry() {
    assert!(strategy("RETRY").is_retry());
    assert!(!strategy("ABORT").is_retry());
    assert!(!strategy("HOLD").is_retry());
    assert!(!strategy("retry").is_retry());
    assert!(!strategy(" RETRY").is_retry());
}

#[test]
fn system_prompt_states_the_schema() {
    let expected = "You are an autonomous Solana validator-level core system infrastructure agent. \
            Analyze the provided transaction failure log string and output a strict raw JSON schema mapping the recovery strategy. \
            Your response must be exclusively valid JSON matching the exact schema keys without markdown code block wrappers (do not use ```json). \
            Schema keys required: \
            - \"action\": string (\"RETRY\", \"ABORT\", or \"HOLD\") \
            - \"refresh_blockhash\": boolean (true if blockhash expired, false otherwise) \
            - \"modified_tip\": integer (the updated lamport tip amount to use. If retrying due to a severe network congestion fault, increase the current tip parameter by 20-50% to secure space) \
            - \"reasoning\": string (concise root cause summary)";
    assert_eq!(solana_smart_stack::agent::SYSTEM_PROMPT, expected);
    assert_eq!(solana_smart_stack::agent::MODEL_NAME, "meta/Llama 4 marvick:free");
}
