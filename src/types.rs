use vstd::prelude::*;
use vstd::string::*;

verus! {

/// Size of a generated image.
#[derive(Clone, Copy, PartialEq, Eq, Structural, Debug)]
pub enum ImageSize {
    S256x256,
    S512x512,
    S1024x1024,
    S1792x1024,
    S1024x1792,
}

/// The wire text of a ImageSize.
pub open spec fn image_size_text(v: ImageSize) -> Seq<char> {
    match v {
        ImageSize::S256x256 => "256x256"@,
        ImageSize::S512x512 => "512x512"@,
        ImageSize::S1024x1024 => "1024x1024"@,
        ImageSize::S1792x1024 => "1792x1024"@,
        ImageSize::S1024x1792 => "1024x1792"@,
    }
}

impl ImageSize {
    /// The wire text of this value.
    pub fn to_string(&self) -> (r: String)
        ensures
            r@ == image_size_text(*self),
    {
        match self {
            ImageSize::S256x256 => String::from_str("256x256"),
            ImageSize::S512x512 => String::from_str("512x512"),
            ImageSize::S1024x1024 => String::from_str("1024x1024"),
            ImageSize::S1792x1024 => String::from_str("1792x1024"),
            ImageSize::S1024x1792 => String::from_str("1024x1792"),
        }
    }
}

/// Size of an image made by the dall-e-2 model.
#[derive(Clone, Copy, PartialEq, Eq, Structural, Debug)]
pub enum DallE2ImageSize {
    S256x256,
    S512x512,
    S1024x1024,
}

/// The wire text of a DallE2ImageSize.
pub open spec fn dalle2_size_text(v: DallE2ImageSize) -> Seq<char> {
    match v {
        DallE2ImageSize::S256x256 => "256x256"@,
        DallE2ImageSize::S512x512 => "512x512"@,
        DallE2ImageSize::S1024x1024 => "1024x1024"@,
    }
}

impl DallE2ImageSize {
    /// The wire text of this value.
    pub fn to_string(&self) -> (r: String)
        ensures
            r@ == dalle2_size_text(*self),
    {
        match self {
            DallE2ImageSize::S256x256 => String::from_str("256x256"),
            DallE2ImageSize::S512x512 => String::from_str("512x512"),
            DallE2ImageSize::S1024x1024 => String::from_str("1024x1024"),
        }
    }
}

/// How generated images are returned.
#[derive(Clone, Copy, PartialEq, Eq, Structural, Debug)]
pub enum ResponseFormat {
    Url,
    B64Json,
}

/// The wire text of a ResponseFormat.
pub open spec fn response_format_text(v: ResponseFormat) -> Seq<char> {
    match v {
        ResponseFormat::Url => "url"@,
        ResponseFormat::B64Json => "b64_json"@,
    }
}

impl ResponseFormat {
    /// The wire text of this value.
    pub fn to_string(&self) -> (r: String)
        ensures
            r@ == response_format_text(*self),
    {
        match self {
            ResponseFormat::Url => String::from_str("url"),
            ResponseFormat::B64Json => String::from_str("b64_json"),
        }
    }
}

/// Format of a transcript.
#[derive(Clone, Copy, PartialEq, Eq, Structural, Debug)]
pub enum AudioResponseFormat {
    Json,
    Srt,
    Text,
    VerboseJson,
    Vtt,
}

/// The wire text of a AudioResponseFormat.
pub open spec fn audio_format_text(v: AudioResponseFormat) -> Seq<char> {
    match v {
        AudioResponseFormat::Json => "json"@,
        AudioResponseFormat::Srt => "srt"@,
        AudioResponseFormat::Text => "text"@,
        AudioResponseFormat::VerboseJson => "verbose_json"@,
        AudioResponseFormat::Vtt => "vtt"@,
    }
}

impl AudioResponseFormat {
    /// The wire text of this value.
    pub fn to_string(&self) -> (r: String)
        ensures
            r@ == audio_format_text(*self),
    {
        match self {
            AudioResponseFormat::Json => String::from_str("json"),
            AudioResponseFormat::Srt => String::from_str("srt"),
            AudioResponseFormat::Text => String::from_str("text"),
            AudioResponseFormat::VerboseJson => String::from_str("verbose_json"),
            AudioResponseFormat::Vtt => String::from_str("vtt"),
        }
    }
}

/// Granularity of transcript timestamps.
#[derive(Clone, Copy, PartialEq, Eq, Structural, Debug)]
pub enum TimestampGranularity {
    Word,
    Segment,
}

/// The wire text of a TimestampGranularity.
pub open spec fn granularity_text(v: TimestampGranularity) -> Seq<char> {
    match v {
        TimestampGranularity::Word => "word"@,
        TimestampGranularity::Segment => "segment"@,
    }
}

impl TimestampGranularity {
    /// The wire text of this value.
    pub fn to_string(&self) -> (r: String)
        ensures
            r@ == granularity_text(*self),
    {
        match self {
            TimestampGranularity::Word => String::from_str("word"),
            TimestampGranularity::Segment => String::from_str("segment"),
        }
    }
}

/// Author of a chat message.
#[derive(Clone, Copy, PartialEq, Eq, Structural, Debug)]
pub enum Role {
    User,
    System,
    Assistant,
    Function,
    Tool,
}

/// The wire text of a Role.
pub open spec fn role_text(v: Role) -> Seq<char> {
    match v {
        Role::User => "user"@,
        Role::System => "system"@,
        Role::Assistant => "assistant"@,
        Role::Function => "function"@,
        Role::Tool => "tool"@,
    }
}

impl Role {
    /// The wire text of this value.
    pub fn to_string(&self) -> (r: String)
        ensures
            r@ == role_text(*self),
    {
        match self {
            Role::User => String::from_str("user"),
            Role::System => String::from_str("system"),
            Role::Assistant => String::from_str("assistant"),
            Role::Function => String::from_str("function"),
            Role::Tool => String::from_str("tool"),
        }
    }
}

/// Model used for images.
#[derive(Debug)]
pub enum ImageModel {
    DallE2,
    DallE3,
    Other(String),
}

/// The wire text of an ImageModel.
pub open spec fn image_model_text(m: ImageModel) -> Seq<char> {
    match m {
        ImageModel::DallE2 => "dall-e-2"@,
        ImageModel::DallE3 => "dall-e-3"@,
        ImageModel::Other(s) => s@,
    }
}

impl ImageModel {
    /// The wire text of this value.
    pub fn to_string(&self) -> (r: String)
        ensures
            r@ == image_model_text(*self),
    {
        match self {
            ImageModel::DallE2 => String::from_str("dall-e-2"),
            ImageModel::DallE3 => String::from_str("dall-e-3"),
            ImageModel::Other(s) => s.clone(),
        }
    }
}

} // verus!
