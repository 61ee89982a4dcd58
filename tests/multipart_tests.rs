use async_openai_wasm::error::OpenAIError;
use async_openai_wasm::multipart::{
    AudioInput, CreateFileRequest, CreateImageEditRequest, CreateImageVariationRequest,
    CreateTranscriptionRequest, CreateTranslationRequest, FileInput, MultipartForm, FormPart, ImageInput,
    InputSource,
};
use async_openai_wasm::types::{
    AudioResponseFormat, DallE2ImageSize, ImageModel, ResponseFormat, TimestampGranularity,
};

fn names(f: &MultipartForm) -> Vec<String> {
    f.parts
        .iter()
        .map(|p| match p {
            FormPart::Text { name, .. } => name.clone(),
            FormPart::File { name, .. } => name.clone(),
        })
        .collect()
}

fn text_of(f: &MultipartForm, field: &str) -> Option<String> {
    f.parts.iter().find_map(|p| match p {
        FormPart::Text { name, value } if name == field => Some(value.clone()),
        _ => None,
    })
}

fn path_audio(p: &str) -> AudioInput {
    AudioInput { source: InputSource::Path { path: p.to_string() } }
}

#[test]
fn transcription_missing_path_is_io_error() {
    let req = CreateTranscriptionRequest {
        file: path_audio("/no/such/file.mp3"),
        model: "whisper-1".to_string(),
        prompt: None,
        response_format: None,
        temperature: None,
        language: None,
        timestamp_granularities: None,
    };
    assert!(matches!(req.to_form(&None), Err(OpenAIError::Io(_))));
}

#[test]
fn transcription_field_order() {
    let req = CreateTranscriptionRequest {
        file: path_audio("audio/clip.mp3"),
        model: "whisper-1".to_string(),
        prompt: Some("hello".to_string()),
        response_format: Some(AudioResponseFormat::VerboseJson),
        temperature: Some("0.2".to_string()),
        language: None,
        timestamp_granularities: Some(vec![TimestampGranularity::Word, TimestampGranularity::Segment]),
    };
    let f = req.to_form(&Some(vec![1, 2, 3])).ok().unwrap();
    assert_eq!(
        names(&f),
        vec!["file", "model", "prompt", "response_format", "temperature", "timestamp_granularities[]", "timestamp_granularities[]"]
    );
    match &f.parts[0] {
        FormPart::File { filename, data, .. } => {
            assert_eq!(filename, "clip.mp3");
            assert_eq!(data, &vec![1, 2, 3]);
        }
        _ => panic!("file part first"),
    }
    assert_eq!(text_of(&f, "response_format").unwrap(), "verbose_json");
    match &f.parts[6] {
        FormPart::Text { value, .. } => assert_eq!(value, "segment"),
        _ => panic!("text part"),
    }
}

#[test]
fn translation_from_bytes() {
    let req = CreateTranslationRequest {
        file: AudioInput::from_bytes("a.wav".to_string(), bytes::Bytes::from(vec![9u8, 8, 7])),
        model: "whisper-1".to_string(),
        prompt: None,
        response_format: Some(AudioResponseFormat::Srt),
        temperature: None,
    };
    let f = req.to_form(&None).ok().unwrap();
    assert_eq!(names(&f), vec!["file", "model", "response_format"]);
    match &f.parts[0] {
        FormPart::File { filename, data, .. } => {
            assert_eq!(filename, "a.wav");
            assert_eq!(data, &vec![9u8, 8, 7]);
        }
        _ => panic!("file part first"),
    }
}

#[test]
fn image_edit_with_mask() {
    let req = CreateImageEditRequest {
        image: ImageInput::from_vec_u8("img.png".to_string(), vec![1]),
        prompt: "a cat".to_string(),
        mask: Some(ImageInput { source: InputSource::Path { path: "m/mask.png".to_string() } }),
        model: Some(ImageModel::DallE2),
        n: Some(12),
        size: Some(DallE2ImageSize::S512x512),
        response_format: Some(ResponseFormat::B64Json),
        user: Some("u1".to_string()),
    };
    assert!(matches!(req.to_form(&None, &None), Err(OpenAIError::Io(_))));
    let f = req.to_form(&None, &Some(vec![0])).ok().unwrap();
    assert_eq!(names(&f), vec!["image", "prompt", "mask", "model", "n", "size", "response_format", "user"]);
    assert_eq!(text_of(&f, "n").unwrap(), "12");
    assert_eq!(text_of(&f, "size").unwrap(), "512x512");
    assert_eq!(text_of(&f, "model").unwrap(), "dall-e-2");
    assert_eq!(text_of(&f, "response_format").unwrap(), "b64_json");
}

#[test]
fn image_variation_options() {
    let req = CreateImageVariationRequest {
        image: ImageInput::from_vec_u8("img.png".to_string(), vec![1]),
        model: Some(ImageModel::Other("custom".to_string())),
        n: Some(255),
        size: None,
        response_format: None,
        user: None,
    };
    let f = req.to_form(&None).ok().unwrap();
    assert_eq!(names(&f), vec!["image", "model", "n"]);
    assert_eq!(text_of(&f, "n").unwrap(), "255");
    assert_eq!(text_of(&f, "model").unwrap(), "custom");
}

#[test]
fn file_upload_form() {
    let req = CreateFileRequest {
        file: FileInput::from_vec_u8("data.jsonl".to_string(), b"{}".to_vec()),
        purpose: "fine-tune".to_string(),
    };
    let f = req.to_form(&None).ok().unwrap();
    assert_eq!(names(&f), vec!["file", "purpose"]);
    assert_eq!(text_of(&f, "purpose").unwrap(), "fine-tune");
    let req = CreateFileRequest {
        file: FileInput { source: InputSource::Path { path: "gone.jsonl".to_string() } },
        purpose: "fine-tune".to_string(),
    };
    assert!(matches!(req.to_form(&None), Err(OpenAIError::Io(_))));
}

#[test]
fn default_source_is_empty() {
    match InputSource::default() {
        InputSource::VecU8 { filename, vec } => {
            assert!(filename.is_empty());
            assert!(vec.is_empty());
        }
        _ => panic!("expected an in-memory source"),
    }
}

#[test]
fn path_without_file_name_is_io_error() {
    let req = CreateFileRequest {
        file: FileInput { source: InputSource::Path { path: "data/..".to_string() } },
        purpose: "fine-tune".to_string(),
    };
    assert!(matches!(req.to_form(&Some(vec![1])), Err(OpenAIError::Io(_))));
}

#[test]
fn reqwest_form_is_built() {
    let req = CreateFileRequest {
        file: FileInput::from_vec_u8("data.jsonl".to_string(), b"{}".to_vec()),
        purpose: "fine-tune".to_string(),
    };
    let f = req.to_form(&None).ok().unwrap();
    let r = async_openai_wasm::multipart::to_reqwest_form(&f);
    assert!(!r.boundary().is_empty());
}
