use vstd::prelude::*;
use vstd::string::*;
use crate::error::OpenAIError;
use crate::types::{
    AudioResponseFormat, DallE2ImageSize, ImageModel, ResponseFormat, TimestampGranularity,
    audio_format_text, dalle2_size_text, granularity_text, image_model_text, response_format_text,
};

verus! {

#[verifier::external_type_specification]
#[verifier::external_body]
pub struct ExBytes(bytes::Bytes);

/// The bytes that a `Bytes` buffer holds.
pub uninterp spec fn bytes_content(b: bytes::Bytes) -> Seq<u8>;

/// Relies on `bytes::Bytes` dereferencing to the bytes it holds.
#[verifier::external_body]
fn bytes_to_vec(b: &bytes::Bytes) -> (r: Vec<u8>)
    ensures
        r@ == bytes_content(*b),
{
    b.to_vec()
}

/// Where the bytes of a file part come from.
pub enum InputSource {
    /// A file on disk, read when the request is sent.
    Path { path: String },
    Bytes { filename: String, bytes: bytes::Bytes },
    VecU8 { filename: String, vec: Vec<u8> },
}

impl InputSource {
    /// An empty in-memory file with an empty name.
    pub fn default() -> (r: InputSource)
        ensures
            r matches InputSource::VecU8 { filename, vec } && filename@.len() == 0 && vec@.len() == 0,
    {
        InputSource::VecU8 { filename: String::new(), vec: Vec::new() }
    }
}

/// An audio file to transcribe or translate.
pub struct AudioInput {
    pub source: InputSource,
}

/// A file to upload.
pub struct FileInput {
    pub source: InputSource,
}

/// An image to edit or vary.
pub struct ImageInput {
    pub source: InputSource,
}

impl AudioInput {
    pub fn from_bytes(filename: String, bytes: bytes::Bytes) -> (r: AudioInput)
        ensures
            r.source == (InputSource::Bytes { filename, bytes }),
    {
        AudioInput { source: InputSource::Bytes { filename, bytes } }
    }

    pub fn from_vec_u8(filename: String, vec: Vec<u8>) -> (r: AudioInput)
        ensures
            r.source == (InputSource::VecU8 { filename, vec }),
    {
        AudioInput { source: InputSource::VecU8 { filename, vec } }
    }
}

impl FileInput {
    pub fn from_bytes(filename: String, bytes: bytes::Bytes) -> (r: FileInput)
        ensures
            r.source == (InputSource::Bytes { filename, bytes }),
    {
        FileInput { source: InputSource::Bytes { filename, bytes } }
    }

    pub fn from_vec_u8(filename: String, vec: Vec<u8>) -> (r: FileInput)
        ensures
            r.source == (InputSource::VecU8 { filename, vec }),
    {
        FileInput { source: InputSource::VecU8 { filename, vec } }
    }
}

impl ImageInput {
    pub fn from_bytes(filename: String, bytes: bytes::Bytes) -> (r: ImageInput)
        ensures
            r.source == (InputSource::Bytes { filename, bytes }),
    {
        ImageInput { source: InputSource::Bytes { filename, bytes } }
    }

    pub fn from_vec_u8(filename: String, vec: Vec<u8>) -> (r: ImageInput)
        ensures
            r.source == (InputSource::VecU8 { filename, vec }),
    {
        ImageInput { source: InputSource::VecU8 { filename, vec } }
    }
}

/// One part of a multipart form.
pub enum FormPart {
    Text { name: String, value: String },
    File { name: String, filename: String, data: Vec<u8> },
}

/// A part as plain values: whether it is a file, its field name, its text
/// (the file name, for a file part) and its bytes (empty for a text part).
pub type PartModel = (bool, Seq<char>, Seq<char>, Seq<u8>);

pub open spec fn text_part(name: Seq<char>, value: Seq<char>) -> PartModel {
    (false, name, value, Seq::empty())
}

pub open spec fn file_part(name: Seq<char>, filename: Seq<char>, data: Seq<u8>) -> PartModel {
    (true, name, filename, data)
}

pub open spec fn part_view(p: FormPart) -> PartModel {
    match p {
        FormPart::Text { name, value } => text_part(name@, value@),
        FormPart::File { name, filename, data } => file_part(name@, filename@, data@),
    }
}

/// A multipart form: its parts in wire order.
pub struct MultipartForm {
    pub parts: Vec<FormPart>,
}

impl MultipartForm {
    pub open spec fn view(&self) -> Seq<PartModel> {
        Seq::new(self.parts@.len(), |i: int| part_view(self.parts@[i]))
    }

    pub fn new() -> (r: MultipartForm)
        ensures
            r@ == Seq::<PartModel>::empty(),
    {
        let r = MultipartForm { parts: Vec::new() };
        proof {
            assert(r@ =~= Seq::<PartModel>::empty());
        }
        r
    }

    /// Appends a text part.
    pub fn text(&mut self, name: &str, value: String)
        ensures
            final(self)@ == old(self)@.push(text_part(name@, value@)),
    {
        self.parts.push(FormPart::Text { name: String::from_str(name), value });
        proof {
            assert(final(self)@ =~= old(self)@.push(text_part(name@, value@)));
        }
    }

    /// Appends a file part.
    pub fn part(&mut self, name: &str, filename: String, data: Vec<u8>)
        ensures
            final(self)@ == old(self)@.push(file_part(name@, filename@, data@)),
    {
        self.parts.push(FormPart::File { name: String::from_str(name), filename, data });
        proof {
            assert(final(self)@ =~= old(self)@.push(file_part(name@, filename@, data@)));
        }
    }
}

#[verifier::external_type_specification]
#[verifier::external_body]
pub struct ExReqwestForm(reqwest::multipart::Form);

/// The fields of a reqwest form in order, each read as a part: a field whose
/// part has no file name as its name and text, one with a file name as its
/// name, file name and body bytes.
pub uninterp spec fn reqwest_fields(f: reqwest::multipart::Form) -> Seq<PartModel>;

/// Relies on reqwest::multipart::Form::new: a form without fields.
#[verifier::external_body]
fn reqwest_form_new() -> (r: reqwest::multipart::Form)
    ensures
        reqwest_fields(r) == Seq::<PartModel>::empty(),
{
    reqwest::multipart::Form::new()
}

/// Relies on reqwest::multipart::Form::text: it pushes a field holding a text
/// part without file name after the others.
#[verifier::external_body]
fn reqwest_form_text(f: reqwest::multipart::Form, name: String, value: String) -> (r: reqwest::multipart::Form)
    ensures
        reqwest_fields(r) == reqwest_fields(f).push(text_part(name@, value@)),
{
    f.text(name, value)
}

/// Relies on reqwest::multipart::Form::part: it pushes the field after the
/// others; the part is made by Part::bytes with the bytes as its body and
/// given its file name by Part::file_name.
#[verifier::external_body]
fn reqwest_form_file(f: reqwest::multipart::Form, name: String, filename: String, data: Vec<u8>) -> (r: reqwest::multipart::Form)
    ensures
        reqwest_fields(r) == reqwest_fields(f).push(file_part(name@, filename@, data@)),
{
    f.part(name, reqwest::multipart::Part::bytes(data).file_name(filename))
}

/// The reqwest form that sends `form`: the same parts in the same order.
pub fn to_reqwest_form(form: &MultipartForm) -> (r: reqwest::multipart::Form)
    ensures
        reqwest_fields(r) == form@,
{
    let mut out = reqwest_form_new();
    let mut i: usize = 0;
    while i < form.parts.len()
        invariant
            i <= form.parts@.len(),
            reqwest_fields(out) == form@.take(i as int),
        decreases form.parts@.len() - i,
    {
        match &form.parts[i] {
            FormPart::Text { name, value } => {
                out = reqwest_form_text(out, name.clone(), value.clone());
            },
            FormPart::File { name, filename, data } => {
                out = reqwest_form_file(out, name.clone(), filename.clone(), data.clone());
            },
        }
        proof {
            assert(form@.take(i + 1) =~= form@.take(i as int).push(form@[i as int]));
        }
        i = i + 1;
    }
    proof {
        assert(form@.take(i as int) =~= form@);
    }
    out
}

/// The final component of a path, as text, or `None` when the path has
/// none (it ends in `..`, or is a root or empty).
pub uninterp spec fn file_name_of(path: Seq<char>) -> Option<Seq<char>>;

/// Relies on std::path::Path::file_name, whose result depends on the path
/// text alone; the name is turned into text lossily.
#[verifier::external_body]
fn path_file_name(path: &str) -> (r: Option<String>)
    ensures
        opt_view(r) == file_name_of(path@),
{
    std::path::Path::new(path).file_name().map(|n| n.to_string_lossy().into_owned())
}

/// The file part that a source gives under a field name, given what reading
/// its path gave (`None`: the path could not be read), or `None` when no part
/// can be made: the path could not be read or has no file name.
pub open spec fn source_part(name: Seq<char>, s: InputSource, read: Option<Vec<u8>>) -> Option<PartModel> {
    match s {
        InputSource::Path { path } => match (read, file_name_of(path@)) {
            (Some(d), Some(f)) => Some(file_part(name, f, d@)),
            _ => None,
        },
        InputSource::Bytes { filename, bytes } => Some(file_part(name, filename@, bytes_content(bytes))),
        InputSource::VecU8 { filename, vec } => Some(file_part(name, filename@, vec@)),
    }
}

fn unreadable(path: &String) -> (r: OpenAIError)
    ensures
        r is Io,
{
    OpenAIError::Io(String::from_str("cannot read file or take its name: ").concat(path.as_str()))
}

/// Appends the file part of a source, or fails with an `Io` error when the
/// source is a path that could not be read or has no file name.
fn push_source(form: &mut MultipartForm, name: &str, s: &InputSource, read: &Option<Vec<u8>>) -> (r: Result<(), OpenAIError>)
    ensures
        match source_part(name@, *s, *read) {
            Some(p) => r is Ok && final(form)@ == old(form)@.push(p),
            None => (r matches Err(e) && e is Io) && final(form)@ == old(form)@,
        },
{
    match s {
        InputSource::Path { path } => match (read, path_file_name(path.as_str())) {
            (Some(d), Some(f)) => {
                form.part(name, f, d.clone());
                Ok(())
            },
            _ => Err(unreadable(path)),
        },
        InputSource::Bytes { filename, bytes } => {
            form.part(name, filename.clone(), bytes_to_vec(bytes));
            Ok(())
        },
        InputSource::VecU8 { filename, vec } => {
            form.part(name, filename.clone(), vec.clone());
            Ok(())
        },
    }
}

pub open spec fn opt_view(o: Option<String>) -> Option<Seq<char>> {
    match o {
        Some(s) => Some(s@),
        None => None,
    }
}

/// A text part for a value that is set, nothing for one that is not.
pub open spec fn opt_text(name: Seq<char>, v: Option<Seq<char>>) -> Seq<PartModel> {
    match v {
        Some(s) => seq![text_part(name, s)],
        None => Seq::empty(),
    }
}

pub open spec fn digit_text(d: nat) -> Seq<char> {
    let d = d % 10;
    if d == 0 {
        "0"@
    } else if d == 1 {
        "1"@
    } else if d == 2 {
        "2"@
    } else if d == 3 {
        "3"@
    } else if d == 4 {
        "4"@
    } else if d == 5 {
        "5"@
    } else if d == 6 {
        "6"@
    } else if d == 7 {
        "7"@
    } else if d == 8 {
        "8"@
    } else {
        "9"@
    }
}

/// Decimal digits of a number.
pub open spec fn decimal(n: nat) -> Seq<char>
    decreases n,
{
    if n < 10 {
        digit_text(n)
    } else {
        decimal(n / 10) + digit_text(n % 10)
    }
}

fn digit(d: u8) -> (r: String)
    requires
        d < 10,
    ensures
        r@ == digit_text(d as nat),
{
    String::from_str(
        if d == 0 {
            "0"
        } else if d == 1 {
            "1"
        } else if d == 2 {
            "2"
        } else if d == 3 {
            "3"
        } else if d == 4 {
            "4"
        } else if d == 5 {
            "5"
        } else if d == 6 {
            "6"
        } else if d == 7 {
            "7"
        } else if d == 8 {
            "8"
        } else {
            "9"
        },
    )
}

/// The decimal text of a number.
fn decimal_u8(n: u8) -> (r: String)
    ensures
        r@ == decimal(n as nat),
{
    if n < 10 {
        digit(n)
    } else if n < 100 {
        proof {
            assert(decimal((n / 10) as nat) == digit_text((n / 10) as nat));
        }
        digit(n / 10).concat(digit(n % 10).as_str())
    } else {
        proof {
            assert(decimal((n / 100) as nat) == digit_text((n / 100) as nat));
            assert((n / 10) as nat / 10 == (n / 100) as nat);
            assert(decimal((n / 10) as nat) == decimal((n / 100) as nat) + digit_text(((n / 10) % 10) as nat));
        }
        digit(n / 100).concat(digit((n / 10) % 10).as_str()).concat(digit(n % 10).as_str())
    }
}

/// Appends a text part when the value is set.
fn push_opt_text(form: &mut MultipartForm, name: &str, v: &Option<String>)
    ensures
        final(form)@ == old(form)@ + opt_text(name@, opt_view(*v)),
{
    match v {
        Some(x) => {
            form.text(name, x.clone());
        },
        None => {},
    }
    proof {
        assert(final(form)@ =~= old(form)@ + opt_text(name@, opt_view(*v)));
    }
}

/// The value rendered by `f`, when it is set.
pub open spec fn opt_render<T>(v: Option<T>, f: spec_fn(T) -> Seq<char>) -> Option<Seq<char>> {
    match v {
        Some(x) => Some(f(x)),
        None => None,
    }
}

/// A request to transcribe audio.
pub struct CreateTranscriptionRequest {
    pub file: AudioInput,
    pub model: String,
    pub prompt: Option<String>,
    pub response_format: Option<AudioResponseFormat>,
    /// Sampling temperature, as the decimal text sent on the wire.
    pub temperature: Option<String>,
    pub language: Option<String>,
    pub timestamp_granularities: Option<Vec<TimestampGranularity>>,
}

pub open spec fn granularity_parts(g: Option<Vec<TimestampGranularity>>) -> Seq<PartModel> {
    match g {
        Some(v) => Seq::new(
            v@.len(),
            |i: int| text_part("timestamp_granularities[]"@, granularity_text(v@[i])),
        ),
        None => Seq::empty(),
    }
}

/// The parts of a transcription form, file part first, or `None` when the
/// file cannot be read.
pub open spec fn transcription_parts(r: CreateTranscriptionRequest, read: Option<Vec<u8>>) -> Option<Seq<PartModel>> {
    match source_part("file"@, r.file.source, read) {
        Some(f) => Some(
            seq![f, text_part("model"@, r.model@)]
                + opt_text("prompt"@, opt_view(r.prompt))
                + opt_text("response_format"@, opt_render(r.response_format, |x: AudioResponseFormat| audio_format_text(x)))
                + opt_text("temperature"@, opt_view(r.temperature))
                + opt_text("language"@, opt_view(r.language))
                + granularity_parts(r.timestamp_granularities),
        ),
        None => None,
    }
}

impl CreateTranscriptionRequest {
    /// The multipart form of this request; `read` is what reading the file
    /// path gave, when the file is a path.
    pub fn to_form(&self, read: &Option<Vec<u8>>) -> (r: Result<MultipartForm, OpenAIError>)
        ensures
            match transcription_parts(*self, *read) {
                Some(p) => r matches Ok(f) && f@ == p,
                None => r matches Err(e) && e is Io,
            },
    {
        let mut form = MultipartForm::new();
        match push_source(&mut form, "file", &self.file.source, read) {
            Ok(()) => {},
            Err(e) => {
                return Err(e);
            },
        }
        form.text("model", self.model.clone());
        push_opt_text(&mut form, "prompt", &self.prompt);
        let fmt = match &self.response_format {
            Some(x) => Some(x.to_string()),
            None => None,
        };
        push_opt_text(&mut form, "response_format", &fmt);
        push_opt_text(&mut form, "temperature", &self.temperature);
        push_opt_text(&mut form, "language", &self.language);
        let ghost before = form@;
        match &self.timestamp_granularities {
            Some(g) => {
                let mut i: usize = 0;
                while i < g.len()
                    invariant
                        i <= g@.len(),
                        form@ == before + granularity_parts(Some(*g)).take(i as int),
                    decreases g@.len() - i,
                {
                    form.text("timestamp_granularities[]", g[i].to_string());
                    proof {
                        assert(granularity_parts(Some(*g)).take(i + 1) =~= granularity_parts(Some(*g)).take(i as int).push(
                            text_part("timestamp_granularities[]"@, granularity_text(g@[i as int])),
                        ));
                    }
                    i = i + 1;
                }
                proof {
                    assert(granularity_parts(Some(*g)).take(i as int) =~= granularity_parts(Some(*g)));
                }
            },
            None => {
                proof {
                    assert(form@ =~= before + granularity_parts(None));
                }
            },
        }
        proof {
            let f = source_part("file"@, self.file.source, *read).unwrap();
            assert(opt_view(fmt) == opt_render(self.response_format, |x: AudioResponseFormat| audio_format_text(x)));
            assert(form@ =~= transcription_parts(*self, *read).unwrap());
        }
        Ok(form)
    }
}

/// A request to translate audio into English.
pub struct CreateTranslationRequest {
    pub file: AudioInput,
    pub model: String,
    pub prompt: Option<String>,
    pub response_format: Option<AudioResponseFormat>,
    /// Sampling temperature, as the decimal text sent on the wire.
    pub temperature: Option<String>,
}

/// The parts of a translation form, file part first, or `None` when the
/// file cannot be read.
pub open spec fn translation_parts(r: CreateTranslationRequest, read: Option<Vec<u8>>) -> Option<Seq<PartModel>> {
    match source_part("file"@, r.file.source, read) {
        Some(f) => Some(
            seq![f, text_part("model"@, r.model@)]
                + opt_text("prompt"@, opt_view(r.prompt))
                + opt_text("response_format"@, opt_render(r.response_format, |x: AudioResponseFormat| audio_format_text(x)))
                + opt_text("temperature"@, opt_view(r.temperature)),
        ),
        None => None,
    }
}

impl CreateTranslationRequest {
    /// The multipart form of this request; `read` is what reading the file
    /// path gave, when the file is a path.
    pub fn to_form(&self, read: &Option<Vec<u8>>) -> (r: Result<MultipartForm, OpenAIError>)
        ensures
            match translation_parts(*self, *read) {
                Some(p) => r matches Ok(f) && f@ == p,
                None => r matches Err(e) && e is Io,
            },
    {
        let mut form = MultipartForm::new();
        match push_source(&mut form, "file", &self.file.source, read) {
            Ok(()) => {},
            Err(e) => {
                return Err(e);
            },
        }
        form.text("model", self.model.clone());
        push_opt_text(&mut form, "prompt", &self.prompt);
        let fmt = match &self.response_format {
            Some(x) => Some(x.to_string()),
            None => None,
        };
        push_opt_text(&mut form, "response_format", &fmt);
        push_opt_text(&mut form, "temperature", &self.temperature);
        proof {
            assert(opt_view(fmt) == opt_render(self.response_format, |x: AudioResponseFormat| audio_format_text(x)));
            assert(form@ =~= translation_parts(*self, *read).unwrap());
        }
        Ok(form)
    }
}

/// The optional fields that image edits and variations share, in wire
/// order: model, n, size, response_format, user.
pub open spec fn image_option_parts(
    model: Option<ImageModel>,
    n: Option<u8>,
    size: Option<DallE2ImageSize>,
    response_format: Option<ResponseFormat>,
    user: Option<String>,
) -> Seq<PartModel> {
    opt_text("model"@, opt_render(model, |x: ImageModel| image_model_text(x)))
        + opt_text("n"@, opt_render(n, |x: u8| decimal(x as nat)))
        + opt_text("size"@, opt_render(size, |x: DallE2ImageSize| dalle2_size_text(x)))
        + opt_text("response_format"@, opt_render(response_format, |x: ResponseFormat| response_format_text(x)))
        + opt_text("user"@, opt_view(user))
}

#[verifier::rlimit(50)]
fn push_image_options(
    form: &mut MultipartForm,
    model: &Option<ImageModel>,
    n: Option<u8>,
    size: Option<DallE2ImageSize>,
    response_format: Option<ResponseFormat>,
    user: &Option<String>,
)
    ensures
        final(form)@ == old(form)@ + image_option_parts(*model, n, size, response_format, *user),
{
    let ghost s0 = form@;
    let m = match model {
        Some(x) => Some(x.to_string()),
        None => None,
    };
    push_opt_text(form, "model", &m);
    let c = match n {
        Some(x) => Some(decimal_u8(x)),
        None => None,
    };
    push_opt_text(form, "n", &c);
    let z = match size {
        Some(x) => Some(x.to_string()),
        None => None,
    };
    push_opt_text(form, "size", &z);
    let f = match response_format {
        Some(x) => Some(x.to_string()),
        None => None,
    };
    push_opt_text(form, "response_format", &f);
    push_opt_text(form, "user", user);
    proof {
        assert(opt_view(m) == opt_render(*model, |x: ImageModel| image_model_text(x)));
        assert(opt_view(c) == opt_render(n, |x: u8| decimal(x as nat)));
        assert(opt_view(z) == opt_render(size, |x: DallE2ImageSize| dalle2_size_text(x)));
        assert(opt_view(f) == opt_render(response_format, |x: ResponseFormat| response_format_text(x)));
        assert(final(form)@ == s0 + opt_text("model"@, opt_view(m)) + opt_text("n"@, opt_view(c))
            + opt_text("size"@, opt_view(z)) + opt_text("response_format"@, opt_view(f))
            + opt_text("user"@, opt_view(*user)));
        assert(final(form)@ =~= old(form)@ + image_option_parts(*model, n, size, response_format, *user));
    }
}

/// A request to edit an image, optionally under a mask.
pub struct CreateImageEditRequest {
    pub image: ImageInput,
    pub prompt: String,
    pub mask: Option<ImageInput>,
    pub model: Option<ImageModel>,
    pub n: Option<u8>,
    pub size: Option<DallE2ImageSize>,
    pub response_format: Option<ResponseFormat>,
    pub user: Option<String>,
}

/// The parts of an image edit form: image, prompt, mask, then the options;
/// `None` when the image or the mask cannot be read.
pub open spec fn image_edit_parts(
    r: CreateImageEditRequest,
    image_read: Option<Vec<u8>>,
    mask_read: Option<Vec<u8>>,
) -> Option<Seq<PartModel>> {
    let opts = image_option_parts(r.model, r.n, r.size, r.response_format, r.user);
    match source_part("image"@, r.image.source, image_read) {
        Some(i) => match r.mask {
            None => Some(seq![i, text_part("prompt"@, r.prompt@)] + opts),
            Some(m) => match source_part("mask"@, m.source, mask_read) {
                Some(mp) => Some(seq![i, text_part("prompt"@, r.prompt@), mp] + opts),
                None => None,
            },
        },
        None => None,
    }
}

impl CreateImageEditRequest {
    /// The multipart form of this request; `image_read` and `mask_read` are
    /// what reading the image and mask paths gave, when they are paths.
    pub fn to_form(&self, image_read: &Option<Vec<u8>>, mask_read: &Option<Vec<u8>>) -> (r: Result<MultipartForm, OpenAIError>)
        ensures
            match image_edit_parts(*self, *image_read, *mask_read) {
                Some(p) => r matches Ok(f) && f@ == p,
                None => r matches Err(e) && e is Io,
            },
    {
        let mut form = MultipartForm::new();
        match push_source(&mut form, "image", &self.image.source, image_read) {
            Ok(()) => {},
            Err(e) => {
                return Err(e);
            },
        }
        form.text("prompt", self.prompt.clone());
        match &self.mask {
            Some(m) => match push_source(&mut form, "mask", &m.source, mask_read) {
                Ok(()) => {},
                Err(e) => {
                    return Err(e);
                },
            },
            None => {},
        }
        push_image_options(&mut form, &self.model, self.n, self.size, self.response_format, &self.user);
        proof {
            assert(form@ =~= image_edit_parts(*self, *image_read, *mask_read).unwrap());
        }
        Ok(form)
    }
}

/// A request for variations of an image.
pub struct CreateImageVariationRequest {
    pub image: ImageInput,
    pub model: Option<ImageModel>,
    pub n: Option<u8>,
    pub size: Option<DallE2ImageSize>,
    pub response_format: Option<ResponseFormat>,
    pub user: Option<String>,
}

/// The parts of an image variation form: image, then the options; `None`
/// when the image cannot be read.
pub open spec fn image_variation_parts(r: CreateImageVariationRequest, read: Option<Vec<u8>>) -> Option<Seq<PartModel>> {
    match source_part("image"@, r.image.source, read) {
        Some(i) => Some(seq![i] + image_option_parts(r.model, r.n, r.size, r.response_format, r.user)),
        None => None,
    }
}

impl CreateImageVariationRequest {
    /// The multipart form of this request; `read` is what reading the image
    /// path gave, when the image is a path.
    pub fn to_form(&self, read: &Option<Vec<u8>>) -> (r: Result<MultipartForm, OpenAIError>)
        ensures
            match image_variation_parts(*self, *read) {
                Some(p) => r matches Ok(f) && f@ == p,
                None => r matches Err(e) && e is Io,
            },
    {
        let mut form = MultipartForm::new();
        match push_source(&mut form, "image", &self.image.source, read) {
            Ok(()) => {},
            Err(e) => {
                return Err(e);
            },
        }
        push_image_options(&mut form, &self.model, self.n, self.size, self.response_format, &self.user);
        proof {
            assert(form@ =~= image_variation_parts(*self, *read).unwrap());
        }
        Ok(form)
    }
}

/// A request to upload a file.
pub struct CreateFileRequest {
    pub file: FileInput,
    pub purpose: String,
}

/// The parts of a file upload form: file, then purpose; `None` when the
/// file cannot be read.
pub open spec fn file_upload_parts(r: CreateFileRequest, read: Option<Vec<u8>>) -> Option<Seq<PartModel>> {
    match source_part("file"@, r.file.source, read) {
        Some(f) => Some(seq![f, text_part("purpose"@, r.purpose@)]),
        None => None,
    }
}

impl CreateFileRequest {
    /// The multipart form of this request; `read` is what reading the file
    /// path gave, when the file is a path.
    pub fn to_form(&self, read: &Option<Vec<u8>>) -> (r: Result<MultipartForm, OpenAIError>)
        ensures
            match file_upload_parts(*self, *read) {
                Some(p) => r matches Ok(f) && f@ == p,
                None => r matches Err(e) && e is Io,
            },
    {
        let mut form = MultipartForm::new();
        match push_source(&mut form, "file", &self.file.source, read) {
            Ok(()) => {},
            Err(e) => {
                return Err(e);
            },
        }
        form.text("purpose", self.purpose.clone());
        proof {
            assert(form@ =~= file_upload_parts(*self, *read).unwrap());
        }
        Ok(form)
    }
}

/// The file part under `name` comes first and every later part is a text
/// field.
pub open spec fn file_first(parts: Seq<PartModel>, name: Seq<char>) -> bool {
    &&& parts.len() >= 1
    &&& parts[0].0 && parts[0].1 == name
    &&& forall|i: int| 1 <= i < parts.len() ==> !(#[trigger] parts[i]).0
}

/// A transcription whose file is a path with a file name is encoded exactly when the path
/// could be read, and then with the file part first and text fields after.
pub proof fn lemma_transcription_path_source(r: CreateTranscriptionRequest, read: Option<Vec<u8>>)
    requires
        r.file.source matches InputSource::Path { path } && file_name_of(path@) is Some,
    ensures
        transcription_parts(r, read) is None <==> read is None,
        read is Some ==> file_first(transcription_parts(r, read).unwrap(), "file"@),
{
}

/// A translation whose file is a path with a file name is encoded exactly when the path
/// could be read, and then with the file part first and text fields after.
pub proof fn lemma_translation_path_source(r: CreateTranslationRequest, read: Option<Vec<u8>>)
    requires
        r.file.source matches InputSource::Path { path } && file_name_of(path@) is Some,
    ensures
        translation_parts(r, read) is None <==> read is None,
        read is Some ==> file_first(translation_parts(r, read).unwrap(), "file"@),
{
}

/// An image variation whose image is a path with a file name is encoded exactly when the
/// path could be read, and then with the image part first and text fields
/// after.
pub proof fn lemma_image_variation_path_source(r: CreateImageVariationRequest, read: Option<Vec<u8>>)
    requires
        r.image.source matches InputSource::Path { path } && file_name_of(path@) is Some,
    ensures
        image_variation_parts(r, read) is None <==> read is None,
        read is Some ==> file_first(image_variation_parts(r, read).unwrap(), "image"@),
{
}

/// A file upload whose file is a path with a file name is encoded exactly when the path
/// could be read, and then with the file part first and the purpose after.
pub proof fn lemma_file_upload_path_source(r: CreateFileRequest, read: Option<Vec<u8>>)
    requires
        r.file.source matches InputSource::Path { path } && file_name_of(path@) is Some,
    ensures
        file_upload_parts(r, read) is None <==> read is None,
        read is Some ==> file_first(file_upload_parts(r, read).unwrap(), "file"@),
{
}

/// An image edit whose image is a path with a file name fails when the path could not be
/// read; with the image read and no mask, the image part comes first and
/// text fields follow.
pub proof fn lemma_image_edit_path_source(
    r: CreateImageEditRequest,
    image_read: Option<Vec<u8>>,
    mask_read: Option<Vec<u8>>,
)
    requires
        r.image.source matches InputSource::Path { path } && file_name_of(path@) is Some,
    ensures
        image_read is None ==> image_edit_parts(r, image_read, mask_read) is None,
        image_read is Some && r.mask is None ==> file_first(image_edit_parts(r, image_read, mask_read).unwrap(), "image"@),
{
}

} // verus!
