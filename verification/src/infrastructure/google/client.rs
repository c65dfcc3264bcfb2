//! The rules of the Google Gemini provider: which model a request names, the
//! URLs it calls, how an image to edit is sent, and how replies are read.
use vstd::prelude::*;
use super::types::{GeminiCandidate, GeminiCandidatePart, GeminiModelInfo, GeminiModelsResponse, GeminiResponse};
use crate::codec::{base64_encode, base64_standard_encode, decodes_to};
use crate::domain::config::AppConfig;
use crate::domain::errors::{image_error, image_error_text, is_image_error, DomainError, DomainResult};
use crate::text::{
    after_first, before_first, has_infix, has_prefix, lowercase, owned, remove_all, second_piece,
    splits_in_two, str_eq, lemma_split_append, lemma_split_at_separator, view_str_opt, view_strings, contains, remove_occurrences, split_once,
    starts_with, to_lowercase,
};

verus! {

/// The Gemini model that a model name stands for: the friendly nano-banana
/// names map to Gemini models, and other names stand for themselves.
pub open spec fn gemini_model_for(name: Seq<char>) -> Seq<char> {
    if name == "nano-banana"@ {
        "gemini-2.5-flash-image"@
    } else if name == "nano-banana2"@ || name == "nano-banana 2"@ {
        "gemini-3.1-flash-image-preview"@
    } else if name == "nano-banana-pro"@ {
        "nano-banana-pro-preview"@
    } else {
        name
    }
}

/// The Gemini model for a requested model name; without a name, the
/// configured default is mapped the same way.
pub open spec fn gemini_model(model: Option<Seq<char>>, default_model: Seq<char>) -> Seq<char> {
    match model {
        Some(m) => gemini_model_for(m),
        None => gemini_model_for(default_model),
    }
}

/// A data URL carrying base64 data of the given MIME type.
pub open spec fn data_url(mime_type: Seq<char>, data: Seq<char>) -> Seq<char> {
    "data:"@ + mime_type + ";base64,"@ + data
}

/// The MIME type named by a data URL: the text after its first `:` up to the
/// next `:` or `;`, and `image/png` when it has no `:`.
pub open spec fn data_url_mime(url: Seq<char>) -> Seq<char> {
    match second_piece(url, ':') {
        Some(piece) => before_first(piece, ';'),
        None => "image/png"@,
    }
}

/// The image data that a model's reply part carries, as data URLs.
pub open spec fn part_images(parts: Seq<GeminiCandidatePart>) -> Seq<Seq<char>>
    decreases parts.len(),
{
    if parts.len() == 0 {
        Seq::empty()
    } else {
        let rest = part_images(parts.drop_last());
        match parts.last().inline_data {
            Some(d) => rest.push(data_url(d.mime_type@, d.data@)),
            None => rest,
        }
    }
}

/// The images of all candidates, in order.
pub open spec fn candidate_images(candidates: Seq<GeminiCandidate>) -> Seq<Seq<char>>
    decreases candidates.len(),
{
    if candidates.len() == 0 {
        Seq::empty()
    } else {
        let rest = candidate_images(candidates.drop_last());
        match candidates.last().content {
            Some(content) => rest + part_images(content.parts@),
            None => rest,
        }
    }
}

/// Why the model stopped, as the first candidate reports it.
pub open spec fn finish_reason(candidates: Seq<GeminiCandidate>) -> Seq<char> {
    if candidates.len() > 0 && candidates[0].finish_reason is Some {
        candidates[0].finish_reason->0@
    } else {
        "Unknown reason"@
    }
}

/// A listed model supports `generateContent`.
pub open spec fn supports_generate_content(model: GeminiModelInfo) -> bool {
    view_strings(model.supported_generation_methods@).contains("generateContent"@)
}

/// A model name without its `models/` prefixes.
pub open spec fn short_model_name(model: GeminiModelInfo) -> Seq<char> {
    remove_all(model.name@, "models/"@)
}

/// A model name that, lowercased, names an image model.
pub open spec fn is_image_model_name(name: Seq<char>) -> bool {
    let lower = lowercase(name);
    has_infix(lower, "image"@) || has_infix(lower, "imagen"@) || has_infix(lower, "banana"@)
        || has_infix(lower, "lyria"@)
}

/// The image models of a listing, by short name, in order.
pub open spec fn image_models(models: Seq<GeminiModelInfo>) -> Seq<Seq<char>>
    decreases models.len(),
{
    if models.len() == 0 {
        Seq::empty()
    } else {
        let rest = image_models(models.drop_last());
        let m = models.last();
        if supports_generate_content(m) && is_image_model_name(short_model_name(m)) {
            rest.push(short_model_name(m))
        } else {
            rest
        }
    }
}

/// Law: a data URL written for a reply part is read back, by the rules that
/// `image_source` follows, as the same MIME type and data, whenever the MIME
/// type holds no `,`, `:` or `;` and the data holds no `,` (base64 holds none).
pub proof fn law_data_url_round_trip(mime_type: Seq<char>, data: Seq<char>)
    requires
        !mime_type.contains(','),
        !mime_type.contains(':'),
        !mime_type.contains(';'),
        !data.contains(','),
    ensures
        splits_in_two(data_url(mime_type, data), ','),
        after_first(data_url(mime_type, data), ',') == Some(data),
        data_url_mime(data_url(mime_type, data)) == mime_type,
{
    reveal_strlit("data:");
    reveal_strlit(";base64,");
    let url = data_url(mime_type, data);
    let head = seq!['d', 'a', 't', 'a'];
    let marker = seq![';', 'b', 'a', 's', 'e', '6', '4'];
    // The comma: only the one that ends the `;base64,` marker.
    let before_comma = head + seq![':'] + mime_type + marker;
    assert(!before_comma.contains(',')) by {
        if before_comma.contains(',') {
            let j = choose|j: int| 0 <= j < before_comma.len() && before_comma[j] == ',';
            if j >= 5 && j < 5 + mime_type.len() {
                assert(mime_type[j - 5] == ',');
            }
        }
    }
    assert(url =~= before_comma + seq![','] + data);
    lemma_split_at_separator(before_comma, data, ',');
    // The colon: the one after `data`; the MIME type runs up to the `;`.
    let after_colon = mime_type + seq![';'] + seq!['b', 'a', 's', 'e', '6', '4', ','] + data;
    assert(!head.contains(':'));
    assert(url =~= head + seq![':'] + after_colon);
    lemma_split_at_separator(head, after_colon, ':');
    let tail = seq!['b', 'a', 's', 'e', '6', '4', ','] + data;
    let upto_tail = mime_type + seq![';'] + seq!['b', 'a', 's', 'e', '6', '4', ','];
    assert(!upto_tail.contains(':')) by {
        if upto_tail.contains(':') {
            let j = choose|j: int| 0 <= j < upto_tail.len() && upto_tail[j] == ':';
            if j < mime_type.len() {
                assert(mime_type[j] == ':');
            }
        }
    }
    assert(after_colon =~= upto_tail + data);
    lemma_split_append(upto_tail, data, ':');
    let piece = before_first(after_colon, ':');
    assert(piece =~= mime_type + seq![';'] + (seq!['b', 'a', 's', 'e', '6', '4', ','] + before_first(data, ':')));
    lemma_split_at_separator(mime_type, seq!['b', 'a', 's', 'e', '6', '4', ','] + before_first(data, ':'), ';');
}

/// Where the image to edit comes from.
#[derive(Debug, Clone)]
pub enum GeminiImageSource {
    /// Base64 data already at hand, with its MIME type.
    Inline { mime_type: String, data: String },
    /// A URL to download the image from.
    Remote(String),
}

/// The Gemini provider, with the configuration it runs with.
#[derive(Debug, Clone)]
pub struct GeminiImageClient {
    pub config: AppConfig,
}

impl GeminiImageClient {
    /// A provider for the given configuration.
    pub fn new(config: AppConfig) -> (client: Self)
        ensures
            client.config == config,
    {
        GeminiImageClient { config }
    }

    /// The Gemini model for a requested model name, or for the configured
    /// default when none is requested.
    pub fn map_model(&self, model: Option<&str>) -> (name: String)
        ensures
            name@ == gemini_model(view_str_opt(model), self.config.image_model@),
            model is None ==> name@ == gemini_model(Some(self.config.image_model@), self.config.image_model@),
    {
        match model {
            Some(m) => map_model_name(m),
            None => map_model_name(self.config.image_model.as_str()),
        }
    }

    /// The `generateContent` URL of a model.
    pub fn generate_url(&self, model: &str) -> (url: String)
        ensures
            url@ == self.config.base_url@ + "/models/"@ + model@ + ":generateContent?key="@
                + self.config.api_key@,
    {
        let mut url = self.config.base_url.clone();
        url.append("/models/");
        url.append(model);
        url.append(":generateContent?key=");
        url.append(self.config.api_key.as_str());
        url
    }

    /// The URL of the model listing.
    pub fn models_url(&self) -> (url: String)
        ensures
            url@ == self.config.base_url@ + "/models?key="@ + self.config.api_key@,
    {
        let mut url = self.config.base_url.clone();
        url.append("/models?key=");
        url.append(self.config.api_key.as_str());
        url
    }
}

/// The Gemini model that a model name stands for.
fn map_model_name(m: &str) -> (name: String)
    ensures
        name@ == gemini_model_for(m@),
{
    if str_eq(m, "nano-banana") {
        owned("gemini-2.5-flash-image")
    } else if str_eq(m, "nano-banana2") || str_eq(m, "nano-banana 2") {
        owned("gemini-3.1-flash-image-preview")
    } else if str_eq(m, "nano-banana-pro") {
        owned("nano-banana-pro-preview")
    } else {
        owned(m)
    }
}

/// Whether a listed model supports `generateContent`.
fn supports_generate(model: &GeminiModelInfo) -> (yes: bool)
    ensures
        yes == supports_generate_content(*model),
{
    let methods = &model.supported_generation_methods;
    let ghost views = view_strings(methods@);
    let mut i: usize = 0;
    while i < methods.len()
        invariant
            views == view_strings(methods@),
            methods@ == model.supported_generation_methods@,
            i <= methods.len(),
            forall|j: int| 0 <= j < i ==> views[j] != "generateContent"@,
        decreases methods.len() - i,
    {
        assert(views[i as int] == methods@[i as int]@);
        if str_eq(methods[i].as_str(), "generateContent") {
            assert(views[i as int] == "generateContent"@);
            assert(views.len() == methods@.len());
            assert(views.contains("generateContent"@));
            return true;
        }
        i = i + 1;
    }
    assert(!views.contains("generateContent"@)) by {
        if views.contains("generateContent"@) {
            let k = choose|k: int| 0 <= k < views.len() && views[k] == "generateContent"@;
            assert(views[k] != "generateContent"@);
        }
    }
    false
}

/// Whether a name names an image model.
fn names_image_model(name: &str) -> (yes: bool)
    ensures
        yes == is_image_model_name(name@),
{
    let lower = to_lowercase(name);
    contains(lower.as_str(), "image") || contains(lower.as_str(), "imagen") || contains(
        lower.as_str(),
        "banana",
    ) || contains(lower.as_str(), "lyria")
}

/// The image models of a listing: those supporting `generateContent` whose
/// short name names an image model, in listing order.
pub fn image_model_names(listing: &GeminiModelsResponse) -> (names: Vec<String>)
    ensures
        view_strings(names@) == image_models(listing.models@),
{
    let models = &listing.models;
    let mut names: Vec<String> = Vec::new();
    let mut i: usize = 0;
    while i < models.len()
        invariant
            i <= models.len(),
            view_strings(names@) == image_models(models@.take(i as int)),
        decreases models.len() - i,
    {
        proof {
            reveal_strlit("models/");
        }
        let m = &models[i];
        let short = remove_occurrences(m.name.as_str(), "models/");
        assert(models@.take(i + 1).drop_last() =~= models@.take(i as int));
        if supports_generate(m) && names_image_model(short.as_str()) {
            names.push(short);
        }
        i = i + 1;
        assert(view_strings(names@) =~= image_models(models@.take(i as int)));
    }
    assert(models@.take(models.len() as int) =~= models@);
    names
}

/// The image an edit sends: an image is required; a data URL must hold
/// exactly one comma, its data is what follows the comma, and its MIME type is
/// read as `data_url_mime` says; anything else is a URL to download.
pub fn image_source(image_id: Option<String>) -> (source: DomainResult<GeminiImageSource>)
    ensures
        match image_id {
            None => source matches Err(e) && is_image_error(e, "Missing image"@),
            Some(id) => if has_prefix(id@, "data:"@) {
                match source {
                    Ok(GeminiImageSource::Inline { mime_type, data }) => splits_in_two(id@, ',')
                        && mime_type@ == data_url_mime(id@) && Some(data@) == after_first(id@, ','),
                    Ok(GeminiImageSource::Remote(_)) => false,
                    Err(e) => !splits_in_two(id@, ',') && is_image_error(e, "Invalid data URL"@),
                }
            } else {
                source matches Ok(GeminiImageSource::Remote(url)) && url == id
            },
        },
{
    let image_id = match image_id {
        Some(id) => id,
        None => {
            return Err(image_error_text("Missing image"));
        },
    };
    if !starts_with(image_id.as_str(), "data:") {
        return Ok(GeminiImageSource::Remote(image_id));
    }
    let (_, after_comma) = split_once(image_id.as_str(), ',');
    let data = match after_comma {
        Some(rest) => {
            let (_, second) = split_once(rest.as_str(), ',');
            if second.is_some() {
                return Err(image_error_text("Invalid data URL"));
            }
            rest
        },
        None => {
            return Err(image_error_text("Invalid data URL"));
        },
    };
    let (_, after_colon) = split_once(image_id.as_str(), ':');
    let mime_type = match after_colon {
        Some(rest) => {
            let (piece, _) = split_once(rest.as_str(), ':');
            let (mime, _) = split_once(piece.as_str(), ';');
            mime
        },
        None => owned("image/png"),
    };
    Ok(GeminiImageSource::Inline { mime_type, data })
}

/// The image part of a downloaded image: its content type (`image/png` when
/// the reply named none) and its bytes in base64.
pub fn remote_image_part(content_type: Option<String>, bytes: &[u8]) -> (part: (String, String))
    requires
        bytes@.len() <= usize::MAX / 2,
    ensures
        part.0@ == match content_type {
            Some(t) => t@,
            None => "image/png"@,
        },
        part.1@ == base64_standard_encode(bytes@),
        decodes_to(part.1@, bytes@),
{
    let mime_type = match content_type {
        Some(t) => t,
        None => owned("image/png"),
    };
    (mime_type, base64_encode(bytes))
}

/// Writes a data URL.
pub fn format_data_url(mime_type: &str, data: &str) -> (url: String)
    ensures
        url@ == data_url(mime_type@, data@),
{
    let mut url = owned("data:");
    url.append(mime_type);
    url.append(";base64,");
    url.append(data);
    url
}

/// The images of a model reply, as data URLs.
pub fn reply_images(reply: &GeminiResponse) -> (images: Vec<String>)
    ensures
        view_strings(images@) == candidate_images(reply.candidates@),
{
    let candidates = &reply.candidates;
    let mut images: Vec<String> = Vec::new();
    let mut i: usize = 0;
    while i < candidates.len()
        invariant
            i <= candidates.len(),
            view_strings(images@) == candidate_images(candidates@.take(i as int)),
        decreases candidates.len() - i,
    {
        assert(candidates@.take(i + 1).drop_last() =~= candidates@.take(i as int));
        assert(candidates@.take(i + 1).last() == candidates@[i as int]);
        match &candidates[i].content {
            Some(content) => {
                let parts = &content.parts;
                let ghost before = view_strings(images@);
                let mut k: usize = 0;
                while k < parts.len()
                    invariant
                        k <= parts.len(),
                        view_strings(images@) == before + part_images(parts@.take(k as int)),
                    decreases parts.len() - k,
                {
                    assert(parts@.take(k + 1).drop_last() =~= parts@.take(k as int));
                    assert(parts@.take(k + 1).last() == parts@[k as int]);
                    let ghost prev = view_strings(images@);
                    match &parts[k].inline_data {
                        Some(d) => {
                            let url = format_data_url(d.mime_type.as_str(), d.data.as_str());
                            images.push(url);
                            assert(view_strings(images@) =~= prev.push(url@));
                            assert(part_images(parts@.take(k + 1)) == part_images(
                                parts@.take(k as int),
                            ).push(data_url(d.mime_type@, d.data@)));
                        },
                        None => {
                            assert(part_images(parts@.take(k + 1)) == part_images(
                                parts@.take(k as int),
                            ));
                        },
                    }
                    k = k + 1;
                    assert(view_strings(images@) =~= before + part_images(parts@.take(k as int)));
                }
                assert(parts@.take(parts.len() as int) =~= parts@);
            },
            None => {},
        }
        i = i + 1;
        assert(view_strings(images@) =~= candidate_images(candidates@.take(i as int)));
    }
    assert(candidates@.take(candidates.len() as int) =~= candidates@);
    images
}

/// What a `generateContent` call yields, from the HTTP status (whether it is
/// a success, and its text), the body, and the body decoded as JSON (or the
/// decoding error's text): the images of the reply, or the error that the
/// status, the decoding, or a reply without images calls for.
pub fn interpret_generate_reply(
    status_ok: bool,
    status: &str,
    body: &str,
    decoded: Result<GeminiResponse, String>,
) -> (result: DomainResult<Vec<String>>)
    ensures
        !status_ok ==> (result matches Err(e) && is_image_error(
            e,
            "Gemini Error ("@ + status@ + "): "@ + body@,
        )),
        status_ok ==> match decoded {
            Err(m) => result matches Err(e) && is_image_error(
                e,
                "error decoding response body: "@ + m@,
            ),
            Ok(reply) => if candidate_images(reply.candidates@).len() == 0 {
                result matches Err(e) && is_image_error(
                    e,
                    "Model finished without image: "@ + finish_reason(reply.candidates@),
                )
            } else {
                result matches Ok(images) && view_strings(images@) == candidate_images(
                    reply.candidates@,
                )
            },
        },
{
    if !status_ok {
        let mut detail = owned("Gemini Error (");
        detail.append(status);
        detail.append("): ");
        detail.append(body);
        return Err(DomainError::Image(detail));
    }
    match decoded {
        Err(m) => Err(image_error("error decoding response body: ", m.as_str())),
        Ok(reply) => {
            let images = reply_images(&reply);
            if images.len() == 0 {
                let reason = if reply.candidates.len() > 0 {
                    match &reply.candidates[0].finish_reason {
                        Some(r) => r.clone(),
                        None => owned("Unknown reason"),
                    }
                } else {
                    owned("Unknown reason")
                };
                Err(image_error("Model finished without image: ", reason.as_str()))
            } else {
                Ok(images)
            }
        },
    }
}

/// Law: a listed model supports `generateContent` exactly when that method
/// occurs at some position among its methods, whatever the order.
pub proof fn law_generate_content_anywhere(model: GeminiModelInfo)
    ensures
        supports_generate_content(model) <==> exists|i: int|
            0 <= i < model.supported_generation_methods@.len()
                && #[trigger] model.supported_generation_methods@[i]@ == "generateContent"@,
{
    let methods = model.supported_generation_methods@;
    let views = view_strings(methods);
    if supports_generate_content(model) {
        let k = choose|k: int| 0 <= k < views.len() && views[k] == "generateContent"@;
        assert(methods[k]@ == "generateContent"@);
    }
    if exists|i: int| 0 <= i < methods.len() && #[trigger] methods[i]@ == "generateContent"@ {
        let i = choose|i: int| 0 <= i < methods.len() && #[trigger] methods[i]@ == "generateContent"@;
        assert(views[i] == "generateContent"@);
        assert(views.contains("generateContent"@));
    }
}

} // verus!
