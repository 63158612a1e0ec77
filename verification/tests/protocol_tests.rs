use agent_core::callbacks::{parse_callback, CallbackAction};
use agent_core::commands::{conversation_label, response_mode_label};
use agent_core::config::AppConfig;
use agent_core::identity::IdentityManager;
use agent_core::text::{contains_str, find_first, find_last, first_token, parse_u64, str_eq, trim};
use agent_core::tts::{eq_ignore_ascii_case, pcm_to_wav, TtsEngine, TtsManager};

fn config_for_tests() -> AppConfig {
    AppConfig {
        telegram_bot_token: "SECRET-REDACTED".to_string(),
        groq_api_key: "SECRET-REDACTED".to_string(),
        groq_model: "llama-3.3-70b-versatile".to_string(),
        database_url: "postgres://localhost/agent".to_string(),
        admin_ids: vec![11, 22],
        admin_group_id: -500,
        default_tts_engine: "piper".to_string(),
        piper_model_path: "./models/voice.onnx".to_string(),
        xtts_sidecar_url: "http://localhost:8020".to_string(),
        whisper_model_path: "./models/whisper.bin".to_string(),
        max_context_tokens: 4000,
    }
}

#[test]
fn admins_are_exactly_the_configured_ids() {
    let config = config_for_tests();
    assert!(config.is_admin(11));
    assert!(config.is_admin(22));
    assert!(!config.is_admin(33));
}

#[test]
fn callback_directives_parse_by_prefix() {
    assert!(matches!(
        parse_callback("set_tts:xtts"),
        CallbackAction::SetTts { engine } if engine == "xtts"
    ));
    assert!(matches!(
        parse_callback("set_mode:voice"),
        CallbackAction::SetMode { mode } if mode == "voice"
    ));
    assert!(matches!(
        parse_callback("conv:3f2e"),
        CallbackAction::OpenConversation { conversation } if conversation == "3f2e"
    ));
    assert!(matches!(parse_callback("approve:12"), CallbackAction::Approve { id: 12 }));
    assert!(matches!(parse_callback("deny:0"), CallbackAction::Deny { id: 0 }));
}

#[test]
fn malformed_callbacks_are_ignored() {
    assert!(matches!(parse_callback("approve:twelve"), CallbackAction::Ignored));
    assert!(matches!(parse_callback("approve:"), CallbackAction::Ignored));
    assert!(matches!(parse_callback("deny:-3"), CallbackAction::Ignored));
    assert!(matches!(parse_callback("hello"), CallbackAction::Ignored));
    assert!(matches!(parse_callback(""), CallbackAction::Ignored));
}

#[test]
fn conversation_labels_prefer_title_then_summary() {
    let long_title = "t".repeat(50);
    assert_eq!(conversation_label(&long_title, "s", "Jan 01, 10:00"), "t".repeat(40));
    assert_eq!(conversation_label("New Chat", "about tea", "Jan 01, 10:00"), "about tea");
    assert_eq!(conversation_label("New Chat", "", "Jan 01, 10:00"), "Jan 01, 10:00");
    let long_summary = "s".repeat(50);
    assert_eq!(conversation_label("New Chat", &long_summary, "x"), "s".repeat(40));
}

#[test]
fn response_modes_have_labels() {
    assert_eq!(response_mode_label("text"), "Text Only");
    assert_eq!(response_mode_label("voice"), "Voice Only");
    assert_eq!(response_mode_label("auto"), "Auto (match input)");
    assert_eq!(response_mode_label("anything"), "Auto (match input)");
}

#[test]
fn number_parsing_accepts_digits_only() {
    assert_eq!(parse_u64("123"), Some(123));
    assert_eq!(parse_u64("0"), Some(0));
    assert_eq!(parse_u64(""), None);
    assert_eq!(parse_u64("12a"), None);
    assert_eq!(parse_u64(" 12"), None);
    assert_eq!(parse_u64("18446744073709551615"), Some(u64::MAX));
    assert_eq!(parse_u64("18446744073709551616"), None);
}

#[test]
fn text_utilities_behave_like_their_specifications() {
    assert_eq!(trim("  hi there \n"), "hi there");
    assert_eq!(trim(""), "");
    assert_eq!(trim(" \t "), "");
    assert_eq!(first_token("ls -la"), "ls");
    assert_eq!(first_token(""), "");
    assert!(contains_str("hello world", "lo wo"));
    assert!(contains_str("abc", ""));
    assert!(!contains_str("abc", "abcd"));
    assert!(str_eq("same", "same"));
    assert!(!str_eq("same", "sane"));
    assert_eq!(find_first("a{b{c", '{'), Some(1));
    assert_eq!(find_last("a}b}c", '}'), Some(3));
    assert_eq!(find_first("abc", '{'), None);
}

#[test]
fn engine_names_parse_loosely() {
    assert_eq!(TtsEngine::from_str_loose("xtts"), TtsEngine::Xtts);
    assert_eq!(TtsEngine::from_str_loose("XTTS"), TtsEngine::Xtts);
    assert_eq!(TtsEngine::from_str_loose("XtTs-V2"), TtsEngine::Xtts);
    assert_eq!(TtsEngine::from_str_loose("piper"), TtsEngine::Piper);
    assert_eq!(TtsEngine::from_str_loose("anything else"), TtsEngine::Piper);
    assert!(eq_ignore_ascii_case("AbC", "aBc"));
    assert!(!eq_ignore_ascii_case("abc", "abd"));
}

#[test]
fn engine_display_names() {
    assert_eq!(TtsEngine::Piper.display_name(), "Piper (Fast/CPU)");
    assert_eq!(TtsEngine::Xtts.display_name(), "XTTS-v2 (Quality/GPU)");
}

#[test]
fn sidecar_failures_disable_xtts_until_reset() {
    let config = config_for_tests();
    let mut tts = TtsManager::new(&config);
    assert_eq!(tts.engine_to_use(&TtsEngine::Xtts), TtsEngine::Xtts);
    assert_eq!(tts.engine_to_use(&TtsEngine::Piper), TtsEngine::Piper);
    // A non-connection failure keeps the sidecar enabled.
    tts.note_xtts_failure(false);
    assert_eq!(tts.engine_to_use(&TtsEngine::Xtts), TtsEngine::Xtts);
    // A connection failure disables it.
    tts.note_xtts_failure(true);
    assert_eq!(tts.engine_to_use(&TtsEngine::Xtts), TtsEngine::Piper);
    tts.reset_xtts_availability();
    assert_eq!(tts.engine_to_use(&TtsEngine::Xtts), TtsEngine::Xtts);
}

#[test]
fn wav_container_has_the_exact_header() {
    let pcm: Vec<u8> = vec![1, 2, 3, 4];
    let wav = pcm_to_wav(pcm.as_slice(), 22050, 1, 16);
    assert_eq!(wav.len(), 48);
    let mut expected: Vec<u8> = Vec::new();
    expected.extend_from_slice(b"RIFF");
    expected.extend_from_slice(&40u32.to_le_bytes());
    expected.extend_from_slice(b"WAVE");
    expected.extend_from_slice(b"fmt ");
    expected.extend_from_slice(&16u32.to_le_bytes());
    expected.extend_from_slice(&1u16.to_le_bytes());
    expected.extend_from_slice(&1u16.to_le_bytes());
    expected.extend_from_slice(&22050u32.to_le_bytes());
    expected.extend_from_slice(&44100u32.to_le_bytes());
    expected.extend_from_slice(&2u16.to_le_bytes());
    expected.extend_from_slice(&16u16.to_le_bytes());
    expected.extend_from_slice(b"data");
    expected.extend_from_slice(&4u32.to_le_bytes());
    expected.extend_from_slice(&pcm);
    assert_eq!(wav, expected);
}

#[test]
fn system_prompt_collects_the_non_empty_sections() {
    let mgr = IdentityManager::new("persona");
    let prompt = mgr.build_system_prompt("be kind", "", "never leak", "likes tea", "tools here");
    let expected = "## Core Philosophy\nbe kind\n\n## Security Rules\nnever leak\n\n## About the User\nlikes tea\n\n## Available Tools\ntools here\n\n## Response Guidelines\n- If the user sends a voice message, it has been transcribed for you. Respond naturally.\n- Keep responses concise for voice output (they will be spoken aloud via TTS).\n- You can use tools by responding with a JSON tool call.\n";
    assert_eq!(prompt, expected);
}

#[test]
fn empty_parts_leave_only_the_guidelines() {
    let mgr = IdentityManager::new("persona");
    let prompt = mgr.build_system_prompt("", "", "", "", "");
    assert!(prompt.starts_with("## Response Guidelines\n"));
}

#[test]
fn persona_files_live_under_the_persona_directory() {
    let mgr = IdentityManager::new("persona");
    assert_eq!(mgr.file_path("SOUL"), "persona/SOUL.md");
    assert_eq!(mgr.file_path("IDENTITY"), "persona/IDENTITY.md");
}
