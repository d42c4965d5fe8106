use onemin_cli::asset::{image_filename, DEFAULT_IMAGE_FILENAME};
use onemin_cli::chat::{collect_stream, ChatStream};
use onemin_cli::credential::{resolve_key, KeySource};
use onemin_cli::error::ServiceError;
use onemin_cli::flags::{
    continues_with_folded, image_model, plan_run, session_continues, validate_flags, FlagError,
    RunPlan,
};
use onemin_cli::message::strip_code_prefix;
use onemin_cli::policy::{failure_error, Operation, RetryPolicy, Step};
use onemin_cli::request::{chat_request, conversation_request, decimal_text, image_request};
use onemin_cli::response::{
    check_image_job, image_error_message, read_conversation_id, read_image_job,
};
use onemin_cli::title::{conversation_title, new_conversation_title};

#[test]
fn strips_numeric_code() {
    assert_eq!(strip_code_prefix("429 Too many requests"), "Too many requests");
}

#[test]
fn keeps_message_without_code() {
    assert_eq!(strip_code_prefix("Invalid model"), "Invalid model");
}

#[test]
fn code_prefix_edge_cases() {
    assert_eq!(strip_code_prefix("+7 plus sign"), "plus sign");
    assert_eq!(strip_code_prefix("4294967295 max"), "max");
    assert_eq!(strip_code_prefix("4294967296 too big"), "4294967296 too big");
    assert_eq!(strip_code_prefix("12ab x"), "12ab x");
    assert_eq!(strip_code_prefix(" leading"), " leading");
    assert_eq!(strip_code_prefix("+ x"), "+ x");
    assert_eq!(strip_code_prefix("500"), "500");
    assert_eq!(strip_code_prefix(""), "");
    assert_eq!(strip_code_prefix("1 2 3"), "2 3");
}

#[test]
fn filename_from_url_with_query() {
    assert_eq!(image_filename("https://host/path/1minAI_output.png?x=1"), "1minAI_output.png");
}

#[test]
fn filename_default_without_path_segment() {
    assert_eq!(image_filename("https://host"), DEFAULT_IMAGE_FILENAME);
    assert_eq!(image_filename("https://host/"), "1minAI_output.png");
    assert_eq!(image_filename("https://host/dir/?q=a/b"), "1minAI_output.png");
}

#[test]
fn filename_other_shapes() {
    assert_eq!(image_filename("https://cdn.example/a/b/cat.webp"), "cat.webp");
    assert_eq!(image_filename("picture.png"), "picture.png");
    assert_eq!(image_filename("https://h/x.png?a=1?b=2"), "x.png");
}

#[test]
fn image_error_message_from_json() {
    assert_eq!(image_error_message("{\"message\":\"429 Too many requests\"}"), "Too many requests");
    assert_eq!(image_error_message("{\"message\":\"Invalid model\"}"), "Invalid model");
}

#[test]
fn image_error_message_falls_back_to_body() {
    assert_eq!(image_error_message("not json"), "not json");
    assert_eq!(image_error_message("{\"error\":\"x\"}"), "{\"error\":\"x\"}");
    assert_eq!(image_error_message("{\"message\":5}"), "{\"message\":5}");
}

#[test]
fn conversation_id_is_read() {
    let r = read_conversation_id("{\"conversation\":{\"uuid\":\"abc-123\"}}");
    assert_eq!(r.unwrap(), "abc-123");
}

#[test]
fn conversation_id_missing() {
    let r = read_conversation_id("{\"conversation\":{}}");
    assert!(matches!(r, Err(ServiceError::MalformedResponse { .. })));
}

#[test]
fn image_job_success() {
    let body = "{\"aiRecord\":{\"status\":\"SUCCESS\",\"temporaryUrl\":\"https://h/i/pic.png?sig=1\"}}";
    let a = read_image_job(body).unwrap();
    assert_eq!(a.url, "https://h/i/pic.png?sig=1");
    assert_eq!(a.filename, "pic.png");
}

#[test]
fn image_job_failed_status() {
    let body = "{\"aiRecord\":{\"status\":\"FAILED\",\"temporaryUrl\":\"https://h/p.png\"}}";
    match read_image_job(body) {
        Err(ServiceError::ImageJobFailed { job_status }) => assert_eq!(job_status, "FAILED"),
        other => panic!("unexpected {:?}", other),
    }
}

#[test]
fn image_job_missing_url() {
    let absent = "{\"aiRecord\":{\"status\":\"SUCCESS\"}}";
    assert!(matches!(read_image_job(absent), Err(ServiceError::MissingAssetUrl)));
    assert!(matches!(check_image_job("SUCCESS", ""), Err(ServiceError::MissingAssetUrl)));
}

#[test]
fn image_job_malformed() {
    assert!(matches!(read_image_job("{}"), Err(ServiceError::MalformedResponse { .. })));
    assert!(matches!(read_image_job("<html>"), Err(ServiceError::MalformedResponse { .. })));
}

#[test]
fn retry_then_success() {
    let mut p = RetryPolicy::new();
    assert_eq!(p.on_status(401), Step::RefreshAndRetry);
    assert!(p.refreshed);
    assert_eq!(p.on_status(200), Step::Proceed);
}

#[test]
fn retry_is_bounded() {
    let mut p = RetryPolicy::new();
    assert_eq!(p.on_status(401), Step::RefreshAndRetry);
    assert_eq!(p.on_status(401), Step::Fail);
    match failure_error(Operation::Chat, 401, "denied") {
        ServiceError::Unauthorized { status, body } => {
            assert_eq!(status, 401);
            assert_eq!(body, "denied");
        }
        other => panic!("unexpected {:?}", other),
    }
}

#[test]
fn other_failures_are_not_retried() {
    let mut p = RetryPolicy::new();
    assert_eq!(p.on_status(500), Step::Fail);
    assert!(!p.refreshed);
    assert_eq!(p.on_status(204), Step::Proceed);
    assert_eq!(p.on_status(300), Step::Fail);
}

#[test]
fn failure_messages_per_operation() {
    match failure_error(Operation::CreateConversation, 500, "boom") {
        ServiceError::Api { status, message } => {
            assert_eq!(status, 500);
            assert_eq!(message, "boom");
        }
        other => panic!("unexpected {:?}", other),
    }
    match failure_error(Operation::GenerateImage, 429, "{\"message\":\"429 Too many requests\"}") {
        ServiceError::Api { status, message } => {
            assert_eq!(status, 429);
            assert_eq!(message, "Too many requests");
        }
        other => panic!("unexpected {:?}", other),
    }
}

#[test]
fn decimal_values() {
    assert_eq!(decimal_text(0), "0");
    assert_eq!(decimal_text(500), "500");
    assert_eq!(decimal_text(4294967295), "4294967295");
}

#[test]
fn conversation_body_fields() {
    let body = conversation_request("API - 2024/01/02 at 03:04:05 PM");
    let v: serde_json::Value = serde_json::from_str(&body).unwrap();
    assert_eq!(v["type"], "CHAT_WITH_AI");
    assert_eq!(v["title"], "API - 2024/01/02 at 03:04:05 PM");
}

#[test]
fn chat_body_fields() {
    let body = chat_request("c-1", "o3-mini", "say \"hi\"\n", 500);
    let v: serde_json::Value = serde_json::from_str(&body).unwrap();
    assert_eq!(v["type"], "CHAT_WITH_AI");
    assert_eq!(v["conversationId"], "c-1");
    assert_eq!(v["model"], "o3-mini");
    assert_eq!(v["promptObject"]["prompt"], "say \"hi\"\n");
    assert_eq!(v["promptObject"]["isMixed"], false);
    assert_eq!(v["promptObject"]["webSearch"], false);
    assert_eq!(v["promptObject"]["numOfSite"], 0);
    assert_eq!(v["promptObject"]["maxWord"], 500);
}

#[test]
fn image_body_fields() {
    let body = image_request("dall-e-3", "a cat", "1024x1024", "hd", "natural");
    let v: serde_json::Value = serde_json::from_str(&body).unwrap();
    assert_eq!(v["type"], "IMAGE_GENERATOR");
    assert_eq!(v["model"], "dall-e-3");
    assert_eq!(v["promptObject"]["prompt"], "a cat");
    assert_eq!(v["promptObject"]["n"], 1);
    assert_eq!(v["promptObject"]["size"], "1024x1024");
    assert_eq!(v["promptObject"]["quality"], "hd");
    assert_eq!(v["promptObject"]["style"], "natural");
}

#[test]
fn title_has_prefix() {
    assert_eq!(
        conversation_title("2024/01/02 at 03:04:05 PM"),
        "API - 2024/01/02 at 03:04:05 PM"
    );
}

#[test]
fn new_title_has_timestamp_layout() {
    let t = new_conversation_title();
    assert!(t.starts_with("API - "));
    let stamp: Vec<char> = t["API - ".len()..].chars().collect();
    assert!(stamp.len() >= 25);
    let tail = &stamp[stamp.len() - 21..];
    assert_eq!(tail[0], '/');
    assert_eq!(tail[3], '/');
    assert_eq!(tail[6..10].iter().collect::<String>(), " at ");
    assert_eq!(tail[12], ':');
    assert!(tail[19] == 'A' || tail[19] == 'P');
    assert_eq!(tail[20], 'M');
}

#[test]
fn stream_concatenates_in_order() {
    let chunks = vec![b"Hel".to_vec(), b"lo, ".to_vec(), b"world".to_vec()];
    let (full, shown) = collect_stream(&chunks, false);
    assert_eq!(full, "Hello, world");
    assert_eq!(shown, "Hello, world");
}

#[test]
fn quiet_stream_shows_nothing() {
    let chunks = vec![b"Hel".to_vec(), b"lo".to_vec()];
    let (full, shown) = collect_stream(&chunks, true);
    assert_eq!(full, "Hello");
    assert_eq!(shown, "");
}

#[test]
fn stream_decodes_each_chunk_lossily() {
    let chunks = vec![vec![0x61, 0xFF], vec![0xC3], vec![0xA9], "é".as_bytes().to_vec()];
    let (full, _) = collect_stream(&chunks, false);
    assert_eq!(full, "a\u{FFFD}\u{FFFD}\u{FFFD}é");
    let (empty, _) = collect_stream(&Vec::new(), false);
    assert_eq!(empty, "");
}

#[test]
fn stream_push_and_finish() {
    let mut s = ChatStream::new(false);
    assert_eq!(s.push_chunk(b"one ").unwrap(), "one ");
    assert_eq!(s.push_chunk(b"two").unwrap(), "two");
    let (full, spoken) = s.finish(true);
    assert_eq!(full, "one two");
    assert_eq!(spoken.unwrap(), "one two");
    let mut q = ChatStream::new(true);
    assert!(q.push_chunk(b"x").is_none());
    let (full, spoken) = q.finish(false);
    assert_eq!(full, "x");
    assert!(spoken.is_none());
}

#[test]
fn quiet_needs_voice() {
    assert_eq!(validate_flags(true, false, false, false), vec![FlagError::QuietWithoutVoice]);
    assert!(validate_flags(true, true, false, false).is_empty());
}

#[test]
fn image_excludes_interactive_and_voice() {
    assert_eq!(validate_flags(false, false, true, true), vec![FlagError::ImageWithInteractive]);
    assert_eq!(validate_flags(false, true, true, false), vec![FlagError::ImageWithVoice]);
    assert_eq!(
        validate_flags(true, false, true, true),
        vec![FlagError::QuietWithoutVoice, FlagError::ImageWithInteractive]
    );
    assert_eq!(
        FlagError::ImageWithVoice.message(),
        "Image generation is not compatible with voice output mode."
    );
}

#[test]
fn run_plans() {
    assert!(matches!(plan_run(true, false, false, false, true), RunPlan::Rejected(_)));
    assert!(matches!(plan_run(false, false, true, true, true), RunPlan::Rejected(_)));
    assert!(matches!(plan_run(false, false, true, false, true), RunPlan::GenerateImage));
    assert!(matches!(plan_run(false, false, true, false, false), RunPlan::MissingImagePrompt));
    assert!(matches!(plan_run(false, false, false, true, false), RunPlan::Interactive));
    assert!(matches!(plan_run(true, true, false, false, true), RunPlan::SinglePrompt));
    assert!(matches!(plan_run(false, false, false, false, false), RunPlan::ShowHelp));
}

#[test]
fn image_model_choice() {
    assert_eq!(image_model("o3-mini"), "dall-e-3");
    assert_eq!(image_model("flux"), "flux");
}

#[test]
fn session_exit_words() {
    assert!(!session_continues("EXIT"));
    assert!(!session_continues("Exit"));
    assert!(!session_continues(""));
    assert!(session_continues("exit now"));
    assert!(session_continues("hello"));
    assert!(!continues_with_folded("EXIT", "exit"));
}

#[test]
fn stored_key_is_used() {
    match resolve_key(Some("k1".to_string())) {
        KeySource::Stored(k) => assert_eq!(k, "k1"),
        other => panic!("unexpected {:?}", other),
    }
    assert!(matches!(resolve_key(None), KeySource::AskAndStore));
}
