use vstd::prelude::*;
use vstd::string::*;

verus! {

/// Whether two strings hold the same characters.
pub fn same_text(a: &str, b: &str) -> (r: bool)
    ensures
        r == (a@ == b@),
{
    let n = a.unicode_len();
    if n != b.unicode_len() {
        return false;
    }
    let mut i: usize = 0;
    while i < n
        invariant
            i <= n == a@.len() == b@.len(),
            forall|j: int| 0 <= j < i ==> a@[j] == b@[j],
        decreases n - i,
    {
        if a.get_char(i) != b.get_char(i) {
            return false;
        }
        i = i + 1;
    }
    proof {
        assert(a@ =~= b@);
    }
    true
}

/// The name of a function the model is asked to call.
pub struct FunctionName {
    pub name: String,
}

impl FunctionName {
    pub fn from_text(value: &str) -> (r: FunctionName)
        ensures
            r.name@ == value@,
    {
        FunctionName { name: String::from_str(value) }
    }

    pub fn from_string(value: String) -> (r: FunctionName)
        ensures
            r.name == value,
    {
        FunctionName { name: value }
    }
}

/// Whether and how the model calls a function.
pub enum ChatCompletionFunctionCall {
    /// No function is called (`none` on the wire).
    Disabled,
    Auto,
    Function { name: String },
}

impl ChatCompletionFunctionCall {
    /// `"auto"` and `"none"` name the two modes; any other text names a function.
    pub fn from_text(value: &str) -> (r: ChatCompletionFunctionCall)
        ensures
            value@ == "auto"@ ==> r is Auto,
            value@ == "none"@ ==> r is Disabled,
            value@ != "auto"@ && value@ != "none"@ ==> (r matches ChatCompletionFunctionCall::Function { name } && name@ == value@),
    {
        proof {
            reveal_strlit("auto");
            reveal_strlit("none");
            assert("auto"@[0] != "none"@[0]);
        }
        if same_text(value, "auto") {
            ChatCompletionFunctionCall::Auto
        } else if same_text(value, "none") {
            ChatCompletionFunctionCall::Disabled
        } else {
            ChatCompletionFunctionCall::Function { name: String::from_str(value) }
        }
    }
}

/// Kind of a tool.
#[derive(Clone, Copy, PartialEq, Eq, Structural, Debug)]
pub enum ChatCompletionToolType {
    Function,
}

/// A tool the model must call, by its function's name.
pub struct ChatCompletionNamedToolChoice {
    pub tool_type: ChatCompletionToolType,
    pub function: FunctionName,
}

impl ChatCompletionNamedToolChoice {
    pub fn from_text(value: &str) -> (r: ChatCompletionNamedToolChoice)
        ensures
            r.tool_type == ChatCompletionToolType::Function,
            r.function.name@ == value@,
    {
        ChatCompletionNamedToolChoice {
            tool_type: ChatCompletionToolType::Function,
            function: FunctionName::from_text(value),
        }
    }

    pub fn from_string(value: String) -> (r: ChatCompletionNamedToolChoice)
        ensures
            r.tool_type == ChatCompletionToolType::Function,
            r.function.name == value,
    {
        ChatCompletionNamedToolChoice {
            tool_type: ChatCompletionToolType::Function,
            function: FunctionName::from_string(value),
        }
    }
}

/// Whether and which tool the model calls.
pub enum ChatCompletionToolChoiceOption {
    /// No tool is called (`none` on the wire).
    Disabled,
    Auto,
    Named(ChatCompletionNamedToolChoice),
}

impl ChatCompletionToolChoiceOption {
    /// `"auto"` and `"none"` name the two modes; any other text names a function.
    pub fn from_text(value: &str) -> (r: ChatCompletionToolChoiceOption)
        ensures
            value@ == "auto"@ ==> r is Auto,
            value@ == "none"@ ==> r is Disabled,
            value@ != "auto"@ && value@ != "none"@ ==> (r matches ChatCompletionToolChoiceOption::Named(c)
                && c.tool_type == ChatCompletionToolType::Function && c.function.name@ == value@),
    {
        proof {
            reveal_strlit("auto");
            reveal_strlit("none");
            assert("auto"@[0] != "none"@[0]);
        }
        if same_text(value, "auto") {
            ChatCompletionToolChoiceOption::Auto
        } else if same_text(value, "none") {
            ChatCompletionToolChoiceOption::Disabled
        } else {
            ChatCompletionToolChoiceOption::Named(ChatCompletionNamedToolChoice::from_text(value))
        }
    }

    /// As `from_text`, taking the string.
    pub fn from_string(value: String) -> (r: ChatCompletionToolChoiceOption)
        ensures
            value@ == "auto"@ ==> r is Auto,
            value@ == "none"@ ==> r is Disabled,
            value@ != "auto"@ && value@ != "none"@ ==> (r matches ChatCompletionToolChoiceOption::Named(c)
                && c.tool_type == ChatCompletionToolType::Function && c.function.name == value),
    {
        proof {
            reveal_strlit("auto");
            reveal_strlit("none");
            assert("auto"@[0] != "none"@[0]);
        }
        if same_text(value.as_str(), "auto") {
            ChatCompletionToolChoiceOption::Auto
        } else if same_text(value.as_str(), "none") {
            ChatCompletionToolChoiceOption::Disabled
        } else {
            ChatCompletionToolChoiceOption::Named(ChatCompletionNamedToolChoice::from_string(value))
        }
    }
}

/// A function the model may call: its name, description and JSON schema of
/// its parameters.
pub struct ChatCompletionFunctions {
    pub name: String,
    pub description: Option<String>,
    pub parameters: serde_json::Value,
}

impl ChatCompletionFunctions {
    /// A function with a name and a parameter schema, and no description.
    pub fn from_pair(value: (String, serde_json::Value)) -> (r: ChatCompletionFunctions)
        ensures
            r.name == value.0,
            r.description is None,
            r.parameters == value.1,
    {
        ChatCompletionFunctions { name: value.0, description: None, parameters: value.1 }
    }
}

/// Level of detail at which the model looks at an image.
#[derive(Clone, Copy, PartialEq, Eq, Structural, Debug)]
pub enum ImageDetail {
    Auto,
    Low,
    High,
}

/// An image given by URL.
pub struct ImageUrl {
    pub url: String,
    pub detail: ImageDetail,
}

impl ImageUrl {
    pub fn from_text(value: &str) -> (r: ImageUrl)
        ensures
            r.url@ == value@,
            r.detail == ImageDetail::Auto,
    {
        ImageUrl { url: String::from_str(value), detail: ImageDetail::Auto }
    }

    pub fn from_string(value: String) -> (r: ImageUrl)
        ensures
            r.url == value,
            r.detail == ImageDetail::Auto,
    {
        ImageUrl { url: value, detail: ImageDetail::Auto }
    }
}

/// A text part of a user message.
pub struct ChatCompletionRequestMessageContentPartText {
    /// Always `text`.
    pub part_type: String,
    pub text: String,
}

impl ChatCompletionRequestMessageContentPartText {
    pub fn from_text(value: &str) -> (r: ChatCompletionRequestMessageContentPartText)
        ensures
            r.part_type@ == "text"@,
            r.text@ == value@,
    {
        ChatCompletionRequestMessageContentPartText { part_type: String::from_str("text"), text: String::from_str(value) }
    }

    pub fn from_string(value: String) -> (r: ChatCompletionRequestMessageContentPartText)
        ensures
            r.part_type@ == "text"@,
            r.text == value,
    {
        ChatCompletionRequestMessageContentPartText { part_type: String::from_str("text"), text: value }
    }
}

/// An image part of a user message.
pub struct ChatCompletionRequestMessageContentPartImage {
    /// Always `image_url`.
    pub part_type: String,
    pub image_url: ImageUrl,
}

impl ChatCompletionRequestMessageContentPartImage {
    pub fn new(image_url: ImageUrl) -> (r: ChatCompletionRequestMessageContentPartImage)
        ensures
            r.part_type@ == "image_url"@,
            r.image_url == image_url,
    {
        ChatCompletionRequestMessageContentPartImage { part_type: String::from_str("image_url"), image_url }
    }
}

/// A part of a user message.
pub enum ChatCompletionRequestMessageContentPart {
    Text(ChatCompletionRequestMessageContentPartText),
    Image(ChatCompletionRequestMessageContentPartImage),
}

/// The content of a user message: text, or a list of parts.
pub enum ChatCompletionRequestUserMessageContent {
    Text(String),
    Array(Vec<ChatCompletionRequestMessageContentPart>),
}

impl ChatCompletionRequestUserMessageContent {
    /// Empty text.
    pub fn default() -> (r: ChatCompletionRequestUserMessageContent)
        ensures
            r matches ChatCompletionRequestUserMessageContent::Text(t) && t@.len() == 0,
    {
        ChatCompletionRequestUserMessageContent::Text(String::new())
    }

    pub fn from_text(value: &str) -> (r: ChatCompletionRequestUserMessageContent)
        ensures
            r matches ChatCompletionRequestUserMessageContent::Text(t) && t@ == value@,
    {
        ChatCompletionRequestUserMessageContent::Text(String::from_str(value))
    }

    pub fn from_parts(value: Vec<ChatCompletionRequestMessageContentPart>) -> (r: ChatCompletionRequestUserMessageContent)
        ensures
            r == ChatCompletionRequestUserMessageContent::Array(value),
    {
        ChatCompletionRequestUserMessageContent::Array(value)
    }
}

} // verus!
