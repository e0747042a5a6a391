use post_processing::intent_router::{Intent, IntentRouter};
use post_processing::selection_resolver::SelectionContext;

#[test]
fn test_image_analysis_intent() {
    let selection = SelectionContext::image("data:image/png;base64,abc".to_string());
    let transcript = "What is this image showing?";
    let intent = IntentRouter::detect(transcript, &selection);
    assert_eq!(intent, Intent::ImageAnalysis);
}

#[test]
fn test_web_search_intent() {
    let selection = SelectionContext::none();
    let transcript = "What is the weather today?";
    let intent = IntentRouter::detect(transcript, &selection);
    assert_eq!(intent, Intent::WebAssistedAnswering);
}

#[test]
fn test_transformation_intent() {
    let selection = SelectionContext::text("Hello world".to_string());
    let transcript = "Fix the grammar in this text";
    let intent = IntentRouter::detect(transcript, &selection);
    assert_eq!(intent, Intent::TextTransformation);
}

#[test]
fn test_generation_intent() {
    let selection = SelectionContext::none();
    let transcript = "Write an email to my boss";
    let intent = IntentRouter::detect(transcript, &selection);
    assert_eq!(intent, Intent::TextGeneration);
}

#[test]
fn test_plain_transcription_default() {
    let selection = SelectionContext::none();
    let transcript = "This is just regular speech";
    let intent = IntentRouter::detect(transcript, &selection);
    assert_eq!(intent, Intent::PlainTranscription);
}

#[test]
fn test_uncertainty_keywords() {
    let selection = SelectionContext::none();
    let transcript = "I'm not sure what the capital of France is";
    let intent = IntentRouter::detect(transcript, &selection);
    assert_eq!(intent, Intent::WebAssistedAnswering);
}

#[test]
fn image_keyword_without_image_is_not_image_analysis() {
    let selection = SelectionContext::none();
    let intent = IntentRouter::detect("Describe this picture", &selection);
    assert_ne!(intent, Intent::ImageAnalysis);
    assert_eq!(intent, Intent::PlainTranscription);
}

#[test]
fn image_analysis_precedes_web_lookup() {
    let selection = SelectionContext::image("data:image/png;base64,xyz".to_string());
    let intent = IntentRouter::detect("What is the latest news in this screenshot", &selection);
    assert_eq!(intent, Intent::ImageAnalysis);
}

#[test]
fn transformation_needs_selected_text() {
    let none = SelectionContext::none();
    let intent = IntentRouter::detect("Rewrite this text to be formal", &none);
    assert_eq!(intent, Intent::PlainTranscription);
    let text = SelectionContext::text("hi there".to_string());
    let intent = IntentRouter::detect("Rewrite this text to be formal", &text);
    assert_eq!(intent, Intent::TextTransformation);
}

#[test]
fn transformation_by_to_into() {
    let text = SelectionContext::text("abc".to_string());
    let intent = IntentRouter::detect("convert to bullet points into a list", &text);
    assert_eq!(intent, Intent::TextTransformation);
    let intent = IntentRouter::detect("please shorten", &text);
    assert_eq!(intent, Intent::PlainTranscription);
}

#[test]
fn question_prefix_after_whitespace() {
    let selection = SelectionContext::none();
    assert_eq!(IntentRouter::detect("   how do bees fly", &selection), Intent::WebAssistedAnswering);
    assert_eq!(IntentRouter::detect("whom do bees serve", &selection), Intent::PlainTranscription);
}

#[test]
fn chinese_keywords() {
    let selection = SelectionContext::none();
    assert_eq!(IntentRouter::detect("今天天气怎么样", &selection), Intent::WebAssistedAnswering);
    assert_eq!(IntentRouter::detect("给我写一封信", &selection), Intent::PlainTranscription);
    assert_eq!(IntentRouter::detect("给我写一封 email", &selection), Intent::TextGeneration);
}

#[test]
fn generation_by_about() {
    let selection = SelectionContext::none();
    assert_eq!(
        IntentRouter::detect("an article about the sea", &selection),
        Intent::TextGeneration
    );
}

#[test]
fn uppercase_transcript_is_lowercased() {
    let selection = SelectionContext::none();
    assert_eq!(IntentRouter::detect("WRITE A POEM", &selection), Intent::TextGeneration);
}

#[test]
fn detect_lowercased_is_case_sensitive() {
    let selection = SelectionContext::none();
    assert_eq!(
        IntentRouter::detect_lowercased("WRITE A POEM", &selection),
        Intent::PlainTranscription
    );
    assert_eq!(
        IntentRouter::detect_lowercased("write a poem", &selection),
        Intent::TextGeneration
    );
}

#[test]
fn intent_descriptions() {
    assert_eq!(IntentRouter::intent_description(Intent::PlainTranscription), "Sanitized transcription");
    assert_eq!(IntentRouter::intent_description(Intent::TextTransformation), "Text transformation");
    assert_eq!(IntentRouter::intent_description(Intent::TextGeneration), "Text generation");
    assert_eq!(IntentRouter::intent_description(Intent::ImageAnalysis), "Image analysis");
    assert_eq!(
        IntentRouter::intent_description(Intent::WebAssistedAnswering),
        "Web-assisted answering"
    );
    assert_eq!(Intent::default(), Intent::PlainTranscription);
}

#[test]
fn lookup_precedes_transformation() {
    let text = SelectionContext::text("draft".to_string());
    assert_eq!(
        IntentRouter::detect("fix this text with the latest figures", &text),
        Intent::WebAssistedAnswering
    );
    assert_eq!(
        IntentRouter::detect("fix this text please", &text),
        Intent::TextTransformation
    );
}
