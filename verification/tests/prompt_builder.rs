use post_processing::prompt_builder::{
    PostProcessingPayload, PromptBuilder, POST_PROCESSING_SYSTEM_PROMPT,
};
use post_processing::selection_resolver::{SelectionContext, SelectionType};

#[test]
fn test_payload_creation() {
    let selection = SelectionContext::text("Hello world".to_string());
    let payload = PostProcessingPayload::new(
        "Test transcription".to_string(),
        &selection,
        "Custom instructions".to_string(),
    );

    assert_eq!(payload.output, "Test transcription");
    assert_eq!(payload.selected_text, "Hello world");
    assert_eq!(payload.selection_type, SelectionType::Text);
    assert!(payload.has_text());
    assert!(!payload.has_image());
}

#[test]
fn test_variable_injection() {
    let payload = PostProcessingPayload {
        output: "原始文本".to_string(),
        selected_text: "选中的文本".to_string(),
        selected_image: "".to_string(),
        selection_type: SelectionType::Text,
        selection: "选中的文本".to_string(),
        user_custom_prompt: "自定义指令".to_string(),
    };

    let template = "Output: ${output}, Selected: ${selected_text}, Custom: ${user_custom_prompt}";
    let result = PromptBuilder::build_user_content(template, &payload);

    assert!(result.contains("原始文本"));
    assert!(result.contains("选中的文本"));
    assert!(result.contains("自定义指令"));
}

#[test]
fn test_sanitize_transcript() {
    let dirty = "this is a test   of the system  ";
    let clean = PromptBuilder::sanitize_transcript(dirty);
    assert_eq!(clean, "This is a test of the system.");
}

#[test]
fn variable_injection_exact() {
    let payload = PostProcessingPayload {
        output: "out".to_string(),
        selected_text: "sel".to_string(),
        selected_image: "img".to_string(),
        selection_type: SelectionType::Image,
        selection: "raw".to_string(),
        user_custom_prompt: "cu".to_string(),
    };
    let template = "${output}|${selected_text}|${selected_image}|${selection}|${user_custom_prompt}|${output}|${unknown}";
    assert_eq!(
        PromptBuilder::build_user_content(template, &payload),
        "out|sel|img|raw|cu|out|${unknown}"
    );
    assert_eq!(PromptBuilder::build_user_content("no variables", &payload), "no variables");
}

#[test]
fn injected_values_are_not_expanded_again() {
    let payload = PostProcessingPayload {
        output: "${selection}".to_string(),
        selected_text: String::new(),
        selected_image: String::new(),
        selection_type: SelectionType::Text,
        selection: "S".to_string(),
        user_custom_prompt: String::new(),
    };
    assert_eq!(PromptBuilder::build_user_content("[${output}]", &payload), "[${selection}]");
    assert_eq!(PromptBuilder::build_user_content("${selection}${output}", &payload), "S${selection}");
}

#[test]
fn system_prompt_with_and_without_instructions() {
    assert_eq!(PromptBuilder::build_system_prompt(""), POST_PROCESSING_SYSTEM_PROMPT);
    assert_eq!(PromptBuilder::build_system_prompt(" \n\t"), POST_PROCESSING_SYSTEM_PROMPT);
    let with = PromptBuilder::build_system_prompt("Be brief.");
    assert_eq!(
        with,
        format!("{}\n\n## Custom User Instructions\n\nBe brief.", POST_PROCESSING_SYSTEM_PROMPT)
    );
    assert!(with.starts_with(POST_PROCESSING_SYSTEM_PROMPT));
}

#[test]
fn image_and_web_contents() {
    assert_eq!(
        PromptBuilder::build_image_analysis_content("what is it", "data:abc"),
        "Please analyze this image based on the user's request.\n\nUser's spoken request: what is it\n\nImage: <image>data:abc</image>"
    );
    assert_eq!(
        PromptBuilder::build_web_search_content("rust news"),
        "Search the web for information related to this request: rust news"
    );
}

#[test]
fn sanitize_sentences() {
    assert_eq!(PromptBuilder::sanitize_transcript("hello. world"), "Hello. World.");
    assert_eq!(PromptBuilder::sanitize_transcript("is it ok? yes! fine"), "Is it ok? Yes! Fine.");
    assert_eq!(PromptBuilder::sanitize_transcript("a , b ."), "A, b.");
    assert_eq!(PromptBuilder::sanitize_transcript("note:"), "Note:");
    assert_eq!(PromptBuilder::sanitize_transcript("say 'hi'"), "Say 'hi'");
    assert_eq!(PromptBuilder::sanitize_transcript("   "), "");
    assert_eq!(PromptBuilder::sanitize_transcript(""), "");
    assert_eq!(PromptBuilder::sanitize_transcript("élan vital"), "élan vital.");
}

#[test]
fn sanitize_keeps_sentence_marks() {
    assert_eq!(PromptBuilder::sanitize_transcript("Hello. How are you?"), "Hello. How are you?");
    assert_eq!(PromptBuilder::sanitize_transcript("wait... what?!"), "Wait... What?!");
    assert_eq!(PromptBuilder::sanitize_transcript("one.two ! three"), "One. Two! Three.");
    assert_eq!(PromptBuilder::sanitize_transcript("so . , then"), "So., then.");
    assert_eq!(PromptBuilder::sanitize_transcript("a.\n\tb"), "A. B.");
}

#[test]
fn sanitize_leaves_clean_text_unchanged() {
    for t in [
        "this is a test   of the system  ",
        "is it ok? yes! fine",
        "a , b .",
        "wait... what?!",
        "so . , then",
        "x",
        "Hello. How are you?",
        "\t lead and trail \n",
        "..hi",
    ] {
        let once = PromptBuilder::sanitize_transcript(t);
        assert_eq!(PromptBuilder::sanitize_transcript(&once), once);
    }
}

#[test]
fn sanitize_collapses_only_spaces() {
    assert_eq!(PromptBuilder::sanitize_transcript("a\t\tb     c"), "A\t\tb c.");
}

#[test]
fn payload_flags() {
    let img = SelectionContext::image("data:x".to_string());
    let p = PostProcessingPayload::new("t".to_string(), &img, String::new());
    assert!(p.has_image());
    assert!(!p.has_text());
    assert!(p.has_selection());
    assert_eq!(p.selection, "data:x");
    assert_eq!(p.selected_text, "");
    let none = SelectionContext::none();
    let q = PostProcessingPayload::new("t".to_string(), &none, "c".to_string());
    assert!(!q.has_selection());
    assert_eq!(q.user_custom_prompt, "c");
    let d = PostProcessingPayload::default();
    assert_eq!(d.selection_type, SelectionType::Empty);
    assert_eq!(d.output, "");
}
