use async_openai_wasm::chat::{
    ChatCompletionFunctionCall, ChatCompletionFunctions, ChatCompletionRequestMessageContentPartText,
    ChatCompletionRequestUserMessageContent, ChatCompletionToolChoiceOption, ImageDetail, ImageUrl,
};
use async_openai_wasm::inputs::{EmbeddingInput, Prompt, Stop};
use async_openai_wasm::types::{
    AudioResponseFormat, DallE2ImageSize, ImageModel, ImageSize, ResponseFormat, Role, TimestampGranularity,
};

#[test]
fn wire_texts() {
    assert_eq!(ImageSize::S1792x1024.to_string(), "1792x1024");
    assert_eq!(DallE2ImageSize::S256x256.to_string(), "256x256");
    assert_eq!(ImageModel::DallE3.to_string(), "dall-e-3");
    assert_eq!(ResponseFormat::Url.to_string(), "url");
    assert_eq!(AudioResponseFormat::Vtt.to_string(), "vtt");
    assert_eq!(TimestampGranularity::Word.to_string(), "word");
    assert_eq!(Role::Assistant.to_string(), "assistant");
    assert_eq!(Role::Tool.to_string(), "tool");
}

#[test]
fn function_call_from_text() {
    assert!(matches!(ChatCompletionFunctionCall::from_text("auto"), ChatCompletionFunctionCall::Auto));
    assert!(matches!(ChatCompletionFunctionCall::from_text("none"), ChatCompletionFunctionCall::Disabled));
    match ChatCompletionFunctionCall::from_text("get_weather") {
        ChatCompletionFunctionCall::Function { name } => assert_eq!(name, "get_weather"),
        _ => panic!("expected a named function"),
    }
}

#[test]
fn tool_choice_from_text() {
    assert!(matches!(ChatCompletionToolChoiceOption::from_text("auto"), ChatCompletionToolChoiceOption::Auto));
    assert!(matches!(
        ChatCompletionToolChoiceOption::from_string("none".to_string()),
        ChatCompletionToolChoiceOption::Disabled
    ));
    match ChatCompletionToolChoiceOption::from_text("autocomplete") {
        ChatCompletionToolChoiceOption::Named(c) => assert_eq!(c.function.name, "autocomplete"),
        _ => panic!("expected a named tool"),
    }
}

#[test]
fn small_conversions() {
    let f = ChatCompletionFunctions::from_pair(("f".to_string(), serde_json::Value::Null));
    assert_eq!(f.name, "f");
    assert!(f.description.is_none());
    let u = ImageUrl::from_text("https://x/y.png");
    assert_eq!(u.url, "https://x/y.png");
    assert!(u.detail == ImageDetail::Auto);
    let t = ChatCompletionRequestMessageContentPartText::from_text("hi");
    assert_eq!(t.part_type, "text");
    assert_eq!(t.text, "hi");
    match ChatCompletionRequestUserMessageContent::default() {
        ChatCompletionRequestUserMessageContent::Text(s) => assert!(s.is_empty()),
        _ => panic!("expected text"),
    }
}

#[test]
fn prompt_like_inputs() {
    match Prompt::from_texts(&vec!["a", "b"]) {
        Prompt::StringArray(v) => assert_eq!(v, vec!["a".to_string(), "b".to_string()]),
        _ => panic!("expected several texts"),
    }
    match Stop::default() {
        Stop::String(s) => assert!(s.is_empty()),
        _ => panic!("expected text"),
    }
    assert!(matches!(EmbeddingInput::from_tokens(vec![1, 2]), EmbeddingInput::IntegerArray(_)));
}
