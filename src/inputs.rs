use vstd::prelude::*;
use vstd::string::*;

verus! {

/// The prompt of a completion: text, several texts, or tokens.
pub enum Prompt {
    String(String),
    StringArray(Vec<String>),
    IntegerArray(Vec<u16>),
    ArrayOfIntegerArray(Vec<Vec<u16>>),
}

impl Prompt {
    /// Empty text.
    pub fn default() -> (r: Prompt)
        ensures
            r matches Prompt::String(s) && s@.len() == 0,
    {
        Prompt::String(String::new())
    }

    pub fn from_text(value: &str) -> (r: Prompt)
        ensures
            r matches Prompt::String(s) && s@ == value@,
    {
        Prompt::String(String::from_str(value))
    }

    pub fn from_string(value: String) -> (r: Prompt)
        ensures
            r == Prompt::String(value),
    {
        Prompt::String(value)
    }

    /// Several texts, in order.
    pub fn from_texts(values: &Vec<&str>) -> (r: Prompt)
        ensures
            r matches Prompt::StringArray(v) && v@.len() == values@.len()
                && forall|i: int| 0 <= i < v@.len() ==> (#[trigger] v@[i])@ == values@[i]@,
    {
        let mut v: Vec<String> = Vec::new();
        let mut i: usize = 0;
        while i < values.len()
            invariant
                i <= values@.len(),
                v@.len() == i,
                forall|j: int| 0 <= j < i ==> (#[trigger] v@[j])@ == values@[j]@,
            decreases values@.len() - i,
        {
            v.push(String::from_str(values[i]));
            i = i + 1;
        }
        Prompt::StringArray(v)
    }

    pub fn from_tokens(value: Vec<u16>) -> (r: Prompt)
        ensures
            r == Prompt::IntegerArray(value),
    {
        Prompt::IntegerArray(value)
    }

    pub fn from_token_arrays(value: Vec<Vec<u16>>) -> (r: Prompt)
        ensures
            r == Prompt::ArrayOfIntegerArray(value),
    {
        Prompt::ArrayOfIntegerArray(value)
    }
}

/// Sequences at which generation stops.
pub enum Stop {
    String(String),
    StringArray(Vec<String>),
}

impl Stop {
    /// Empty text.
    pub fn default() -> (r: Stop)
        ensures
            r matches Stop::String(s) && s@.len() == 0,
    {
        Stop::String(String::new())
    }

    pub fn from_text(value: &str) -> (r: Stop)
        ensures
            r matches Stop::String(s) && s@ == value@,
    {
        Stop::String(String::from_str(value))
    }

    pub fn from_string(value: String) -> (r: Stop)
        ensures
            r == Stop::String(value),
    {
        Stop::String(value)
    }

    /// Several texts, in order.
    pub fn from_texts(values: &Vec<&str>) -> (r: Stop)
        ensures
            r matches Stop::StringArray(v) && v@.len() == values@.len()
                && forall|i: int| 0 <= i < v@.len() ==> (#[trigger] v@[i])@ == values@[i]@,
    {
        let mut v: Vec<String> = Vec::new();
        let mut i: usize = 0;
        while i < values.len()
            invariant
                i <= values@.len(),
                v@.len() == i,
                forall|j: int| 0 <= j < i ==> (#[trigger] v@[j])@ == values@[j]@,
            decreases values@.len() - i,
        {
            v.push(String::from_str(values[i]));
            i = i + 1;
        }
        Stop::StringArray(v)
    }
}

/// Text to classify for moderation.
pub enum ModerationInput {
    String(String),
    StringArray(Vec<String>),
}

impl ModerationInput {
    /// Empty text.
    pub fn default() -> (r: ModerationInput)
        ensures
            r matches ModerationInput::String(s) && s@.len() == 0,
    {
        ModerationInput::String(String::new())
    }

    pub fn from_text(value: &str) -> (r: ModerationInput)
        ensures
            r matches ModerationInput::String(s) && s@ == value@,
    {
        ModerationInput::String(String::from_str(value))
    }

    pub fn from_string(value: String) -> (r: ModerationInput)
        ensures
            r == ModerationInput::String(value),
    {
        ModerationInput::String(value)
    }

    /// Several texts, in order.
    pub fn from_texts(values: &Vec<&str>) -> (r: ModerationInput)
        ensures
            r matches ModerationInput::StringArray(v) && v@.len() == values@.len()
                && forall|i: int| 0 <= i < v@.len() ==> (#[trigger] v@[i])@ == values@[i]@,
    {
        let mut v: Vec<String> = Vec::new();
        let mut i: usize = 0;
        while i < values.len()
            invariant
                i <= values@.len(),
                v@.len() == i,
                forall|j: int| 0 <= j < i ==> (#[trigger] v@[j])@ == values@[j]@,
            decreases values@.len() - i,
        {
            v.push(String::from_str(values[i]));
            i = i + 1;
        }
        ModerationInput::StringArray(v)
    }
}

/// Input to embed: text, several texts, or tokens.
pub enum EmbeddingInput {
    String(String),
    StringArray(Vec<String>),
    IntegerArray(Vec<u32>),
    ArrayOfIntegerArray(Vec<Vec<u32>>),
}

impl EmbeddingInput {
    /// Empty text.
    pub fn default() -> (r: EmbeddingInput)
        ensures
            r matches EmbeddingInput::String(s) && s@.len() == 0,
    {
        EmbeddingInput::String(String::new())
    }

    pub fn from_text(value: &str) -> (r: EmbeddingInput)
        ensures
            r matches EmbeddingInput::String(s) && s@ == value@,
    {
        EmbeddingInput::String(String::from_str(value))
    }

    pub fn from_string(value: String) -> (r: EmbeddingInput)
        ensures
            r == EmbeddingInput::String(value),
    {
        EmbeddingInput::String(value)
    }

    /// Several texts, in order.
    pub fn from_texts(values: &Vec<&str>) -> (r: EmbeddingInput)
        ensures
            r matches EmbeddingInput::StringArray(v) && v@.len() == values@.len()
                && forall|i: int| 0 <= i < v@.len() ==> (#[trigger] v@[i])@ == values@[i]@,
    {
        let mut v: Vec<String> = Vec::new();
        let mut i: usize = 0;
        while i < values.len()
            invariant
                i <= values@.len(),
                v@.len() == i,
                forall|j: int| 0 <= j < i ==> (#[trigger] v@[j])@ == values@[j]@,
            decreases values@.len() - i,
        {
            v.push(String::from_str(values[i]));
            i = i + 1;
        }
        EmbeddingInput::StringArray(v)
    }

    pub fn from_tokens(value: Vec<u32>) -> (r: EmbeddingInput)
        ensures
            r == EmbeddingInput::IntegerArray(value),
    {
        EmbeddingInput::IntegerArray(value)
    }

    pub fn from_token_arrays(value: Vec<Vec<u32>>) -> (r: EmbeddingInput)
        ensures
            r == EmbeddingInput::ArrayOfIntegerArray(value),
    {
        EmbeddingInput::ArrayOfIntegerArray(value)
    }
}

} // verus!
