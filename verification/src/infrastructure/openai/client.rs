//! The rules of the OpenAI provider: the request a generation sends, how its
//! images come back, and the steps of a semantic edit.
use vstd::prelude::*;
use super::utils::{
    openai_model_name, quality_for, size_for, style_for, ImageModel, ImageQuality, ImageSize,
    ImageStyle, OpenAiUtils,
};
use crate::cli::Flavor;
use crate::codec::{base64_decode, base64_standard_decode};
use crate::domain::config::AppConfig;
use crate::domain::errors::{image_error, image_error_text, is_image_error, DomainError, DomainResult};
use crate::domain::traits::GenerateParams;
use crate::text::{
    append_decimal, as_deref, decimal_text, has_prefix, lemma_split_at_separator,
    owned, second_piece, split_once, starts_with, str_eq, trim_end, trim_end_char, view_str_opt,
    view_string_opt, view_strings,
};

verus! {

/// The size for an aspect ratio (1:1 when none is given): wide ratios get the
/// wide size, 9:16 the tall size, and any other ratio the square one.
pub open spec fn ratio_size(ratio: Option<Seq<char>>) -> ImageSize {
    let r = match ratio {
        Some(r) => r,
        None => "1:1"@,
    };
    if r == "16:9"@ || r == "21:9"@ {
        ImageSize::S1792x1024
    } else if r == "9:16"@ {
        ImageSize::S1024x1792
    } else {
        ImageSize::S1024x1024
    }
}

/// The size a generation asks for: by aspect ratio in the nano-banana flavor,
/// by size word otherwise.
pub open spec fn generation_size_for(flavor: Flavor, params: GenerateParams) -> ImageSize {
    if flavor == Flavor::NanoBanana {
        ratio_size(view_string_opt(params.ratio))
    } else {
        size_for(view_string_opt(params.size))
    }
}

/// The name under which a model is sent to the edits endpoint.
pub open spec fn image_model_name(model: ImageModel) -> Seq<char> {
    match model {
        ImageModel::DallE2 => "dall-e-2"@,
        ImageModel::DallE3 => "dall-e-3"@,
        ImageModel::GptImage1 => "gpt-image-1"@,
        ImageModel::Other(name) => name@,
    }
}

/// A data URL of PNG data in base64, as the provider hands back base64 images.
pub open spec fn png_data_url(b64: Seq<char>) -> Seq<char> {
    "data:image/png;base64,"@ + b64
}

/// What one generated image becomes: its URL, or a PNG data URL of its data.
pub open spec fn image_output(image: OpenAiImage) -> Seq<char> {
    match image {
        OpenAiImage::Url(url) => url@,
        OpenAiImage::B64Json(b64) => png_data_url(b64@),
    }
}

/// What one item of an edit reply becomes: a PNG data URL of its base64 data,
/// else its URL, else nothing.
pub open spec fn edit_item_output(item: EditReplyItem) -> Option<Seq<char>> {
    match item.b64_json {
        Some(b64) => Some(png_data_url(b64@)),
        None => match item.url {
            Some(url) => Some(url@),
            None => None,
        },
    }
}

/// The images of an edit reply's items, in order, skipping items with neither
/// base64 data nor a URL.
pub open spec fn edit_outputs(items: Seq<EditReplyItem>) -> Seq<Seq<char>>
    decreases items.len(),
{
    if items.len() == 0 {
        Seq::empty()
    } else {
        let rest = edit_outputs(items.drop_last());
        match edit_item_output(items.last()) {
            Some(out) => rest.push(out),
            None => rest,
        }
    }
}

/// The detail of the error for a model that cannot edit semantically.
pub open spec fn unsupported_edit_model(name: Seq<char>) -> Seq<char> {
    "Model '"@ + name
        + "' does not support semantic image editing. Use 'gpt-image-1' or 'gpt-image-1.5' for edits."@
}

/// An image generation request to the OpenAI images API.
#[derive(Debug, Clone)]
pub struct OpenAiImageRequest {
    pub prompt: String,
    pub model: ImageModel,
    pub n: u8,
    pub size: ImageSize,
    pub quality: Option<ImageQuality>,
    pub style: Option<ImageStyle>,
    /// The end-user field, which carries the seed as `seed:<n>`.
    pub user: Option<String>,
}

/// One image of a generation reply.
#[derive(Debug, Clone)]
pub enum OpenAiImage {
    Url(String),
    B64Json(String),
}

/// One item of an edit reply, with the fields that are strings.
#[derive(Debug, Clone)]
pub struct EditReplyItem {
    pub b64_json: Option<String>,
    pub url: Option<String>,
}

/// Where the bytes of the image to edit come from.
#[derive(Debug, Clone)]
pub enum EditImageSource {
    /// Decoded from a data URL.
    Bytes(Vec<u8>),
    /// To be downloaded from a URL.
    Fetch(String),
}

/// The OpenAI provider, with the configuration it runs with.
#[derive(Debug, Clone)]
pub struct OpenAiImageClient {
    pub config: AppConfig,
}

impl OpenAiImageClient {
    /// A provider for the given configuration.
    pub fn new(config: AppConfig) -> (client: Self)
        ensures
            client.config == config,
    {
        OpenAiImageClient { config }
    }

    /// The size a generation asks for.
    pub fn generation_size(&self, params: &GenerateParams) -> (size: ImageSize)
        ensures
            size == generation_size_for(self.config.flavor, *params),
    {
        if self.config.flavor == Flavor::NanoBanana {
            let ratio = match &params.ratio {
                Some(r) => r.as_str(),
                None => "1:1",
            };
            if str_eq(ratio, "16:9") || str_eq(ratio, "21:9") {
                ImageSize::S1792x1024
            } else if str_eq(ratio, "9:16") {
                ImageSize::S1024x1792
            } else {
                ImageSize::S1024x1024
            }
        } else {
            OpenAiUtils::parse_size(as_deref(&params.size))
        }
    }

    /// The request a generation sends: the prompt, the model by name, one image
    /// unless a number is given, the size, the quality and style when they name
    /// one, and the seed in the end-user field.
    pub fn generation_request(&self, params: GenerateParams, size: ImageSize) -> (request: OpenAiImageRequest)
        ensures
            request.prompt == params.prompt,
            request.model matches ImageModel::Other(name) && name@ == openai_model_name(
                view_string_opt(params.model),
                self.config.image_model@,
            ),
            request.n == match params.n {
                Some(n) => n,
                None => 1u8,
            },
            request.size == size,
            request.quality == quality_for(view_string_opt(params.quality)),
            request.style == style_for(view_string_opt(params.style)),
            match params.seed {
                Some(seed) => request.user matches Some(u) && u@ == "seed:"@ + decimal_text(seed as int),
                None => request.user is None,
            },
    {
        let model = OpenAiUtils::parse_model(as_deref(&params.model), &self.config);
        let quality = OpenAiUtils::parse_quality(as_deref(&params.quality));
        let style = OpenAiUtils::parse_style(as_deref(&params.style));
        let n = match params.n {
            Some(n) => n,
            None => 1u8,
        };
        let user = match params.seed {
            Some(seed) => {
                let mut u = owned("seed:");
                append_decimal(&mut u, seed);
                Some(u)
            },
            None => None,
        };
        OpenAiImageRequest { prompt: params.prompt, model, n, size, quality, style, user }
    }

    /// The models this provider offers.
    pub fn list_models(&self) -> (models: Vec<String>)
        ensures
            view_strings(models@) == seq!["gpt-image-1"@, "gpt-image-1.5"@, "gpt-image-1-mini"@],
    {
        let mut models: Vec<String> = Vec::new();
        models.push(owned("gpt-image-1"));
        models.push(owned("gpt-image-1.5"));
        models.push(owned("gpt-image-1-mini"));
        assert(view_strings(models@) =~= seq!["gpt-image-1"@, "gpt-image-1.5"@, "gpt-image-1-mini"@]);
        models
    }

    /// Where the image to edit comes from: an image is required; a data URL is
    /// decoded from the second comma-separated piece; anything else is a URL to
    /// download.
    pub fn edit_source(&self, image_id: Option<String>) -> (source: DomainResult<EditImageSource>)
        ensures
            match image_id {
                None => source matches Err(e) && is_image_error(e, "Missing image"@),
                Some(id) => if has_prefix(id@, "data:"@) {
                    match second_piece(id@, ',') {
                        None => source matches Err(e) && is_image_error(e, "Invalid data URL"@),
                        Some(b64) => match base64_standard_decode(b64) {
                            Ok(bytes) => source matches Ok(EditImageSource::Bytes(b)) && b@ == bytes,
                            Err(m) => source matches Err(e) && is_image_error(e, m),
                        },
                    }
                } else {
                    source matches Ok(EditImageSource::Fetch(url)) && url == id
                },
            },
    {
        let id = match image_id {
            Some(id) => id,
            None => {
                return Err(image_error_text("Missing image"));
            },
        };
        if !starts_with(id.as_str(), "data:") {
            return Ok(EditImageSource::Fetch(id));
        }
        let (_, after_comma) = split_once(id.as_str(), ',');
        let b64 = match after_comma {
            Some(rest) => {
                let (piece, _) = split_once(rest.as_str(), ',');
                piece
            },
            None => {
                return Err(image_error_text("Invalid data URL"));
            },
        };
        match base64_decode(b64.as_str()) {
            Ok(bytes) => Ok(EditImageSource::Bytes(bytes)),
            Err(m) => Err(DomainError::Image(m)),
        }
    }

    /// The model an edit uses, by name; only `gpt-image` models edit
    /// semantically, so any other model is refused.
    pub fn edit_model_name(&self, model: Option<&str>) -> (name: DomainResult<String>)
        ensures
            ({
                let n = openai_model_name(view_str_opt(model), self.config.image_model@);
                if has_prefix(n, "gpt-image"@) {
                    name matches Ok(s) && s@ == n
                } else {
                    name matches Err(e) && is_image_error(e, unsupported_edit_model(n))
                }
            }),
    {
        let parsed = OpenAiUtils::parse_model(model, &self.config);
        let name = model_name(&parsed);
        if !starts_with(name.as_str(), "gpt-image") {
            let mut detail = owned("Model '");
            detail.append(name.as_str());
            detail.append(
                "' does not support semantic image editing. Use 'gpt-image-1' or 'gpt-image-1.5' for edits.",
            );
            return Err(DomainError::Image(detail));
        }
        Ok(name)
    }

    /// The URL of the edits endpoint: the base URL without trailing slashes,
    /// then `/images/edits`.
    pub fn edits_url(&self) -> (url: String)
        ensures
            url@ == trim_end_char(self.config.base_url@, '/') + "/images/edits"@,
    {
        let mut url = trim_end(self.config.base_url.as_str(), '/');
        url.append("/images/edits");
        url
    }
}

/// The name under which a model is sent.
pub fn model_name(model: &ImageModel) -> (name: String)
    ensures
        name@ == image_model_name(*model),
{
    match model {
        ImageModel::DallE2 => owned("dall-e-2"),
        ImageModel::DallE3 => owned("dall-e-3"),
        ImageModel::GptImage1 => owned("gpt-image-1"),
        ImageModel::Other(name) => name.clone(),
    }
}

/// A PNG data URL of base64 data.
pub fn format_png_data_url(b64: &str) -> (url: String)
    ensures
        url@ == png_data_url(b64@),
{
    let mut url = owned("data:image/png;base64,");
    url.append(b64);
    url
}

/// What the images of a generation reply become, in order.
pub fn image_outputs(images: &Vec<OpenAiImage>) -> (outputs: Vec<String>)
    ensures
        view_strings(outputs@) == images@.map_values(|i: OpenAiImage| image_output(i)),
{
    let mut outputs: Vec<String> = Vec::new();
    let mut i: usize = 0;
    while i < images.len()
        invariant
            i <= images.len(),
            outputs@.len() == i,
            forall|j: int| 0 <= j < i ==> #[trigger] outputs@[j]@ == image_output(images@[j]),
        decreases images.len() - i,
    {
        let out = match &images[i] {
            OpenAiImage::Url(url) => url.clone(),
            OpenAiImage::B64Json(b64) => format_png_data_url(b64.as_str()),
        };
        outputs.push(out);
        i = i + 1;
    }
    assert(view_strings(outputs@) =~= images@.map_values(|i: OpenAiImage| image_output(i)));
    outputs
}

/// What an edit call yields, from the HTTP status (whether it is a success,
/// and its text), the body, and the body's `data` array decoded from JSON
/// (`None` when the body holds no such array; the decoding error's text when
/// the body is no JSON).
pub fn interpret_edit_reply(
    status_ok: bool,
    status: &str,
    body: &str,
    decoded: Result<Option<Vec<EditReplyItem>>, String>,
) -> (result: DomainResult<Vec<String>>)
    ensures
        !status_ok ==> (result matches Err(e) && is_image_error(
            e,
            "OpenAI Provider Error ("@ + status@ + "): "@ + body@,
        )),
        status_ok ==> match decoded {
            Err(m) => result matches Err(e) && is_image_error(
                e,
                "error decoding response body: "@ + m@,
            ),
            Ok(None) => result matches Ok(images) && images@.len() == 0,
            Ok(Some(items)) => result matches Ok(images) && view_strings(images@) == edit_outputs(
                items@,
            ),
        },
{
    if !status_ok {
        let mut detail = owned("OpenAI Provider Error (");
        detail.append(status);
        detail.append("): ");
        detail.append(body);
        return Err(DomainError::Image(detail));
    }
    match decoded {
        Err(m) => Err(image_error("error decoding response body: ", m.as_str())),
        Ok(None) => Ok(Vec::new()),
        Ok(Some(items)) => {
            let mut images: Vec<String> = Vec::new();
            let mut i: usize = 0;
            while i < items.len()
                invariant
                    i <= items.len(),
                    view_strings(images@) == edit_outputs(items@.take(i as int)),
                decreases items.len() - i,
            {
                assert(items@.take(i + 1).drop_last() =~= items@.take(i as int));
                assert(items@.take(i + 1).last() == items@[i as int]);
                let ghost prev = view_strings(images@);
                match &items[i].b64_json {
                    Some(b64) => {
                        let url = format_png_data_url(b64.as_str());
                        images.push(url);
                        assert(view_strings(images@) =~= prev.push(url@));
                    },
                    None => match &items[i].url {
                        Some(url) => {
                            let u = url.clone();
                            images.push(u);
                            assert(view_strings(images@) =~= prev.push(u@));
                        },
                        None => {},
                    },
                }
                i = i + 1;
            }
            assert(items@.take(items.len() as int) =~= items@);
            Ok(images)
        },
    }
}

/// Law: a PNG data URL that this provider hands back is read by
/// `edit_source` from the same base64 text, which holds no comma.
pub proof fn law_png_data_url_read_back(b64: Seq<char>)
    requires
        !b64.contains(','),
    ensures
        has_prefix(png_data_url(b64), "data:"@),
        second_piece(png_data_url(b64), ',') == Some(b64),
{
    reveal_strlit("data:image/png;base64,");
    reveal_strlit("data:");
    let head = seq!['d', 'a', 't', 'a', ':', 'i', 'm', 'a', 'g', 'e', '/', 'p', 'n', 'g', ';', 'b', 'a', 's', 'e', '6', '4'];
    assert(png_data_url(b64) =~= head + seq![','] + b64);
    assert(png_data_url(b64).subrange(0, 5) =~= "data:"@);
    lemma_split_at_separator(head, b64, ',');
    crate::text::lemma_first_index(b64, ',');
}

} // verus!
