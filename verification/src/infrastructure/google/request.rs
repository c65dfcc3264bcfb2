//! Building `generateContent` requests.
use vstd::prelude::*;
use super::types::{GeminiContent, GeminiPart, GeminiRequest, GenerationConfig, ImageConfig, InlineData};
use crate::domain::traits::GenerateParams;
use crate::text::owned;

verus! {

/// The request's one turn: the prompt, then the image when there is one.
pub open spec fn request_parts(prompt: String, image_data: Option<(String, String)>) -> Seq<GeminiPart> {
    match image_data {
        Some((mime_type, data)) => seq![
            GeminiPart::Text(prompt),
            GeminiPart::InlineData(InlineData { mime_type, data }),
        ],
        None => seq![GeminiPart::Text(prompt)],
    }
}

/// `request` is the request for the prompt and, when given, the image (MIME
/// type and base64 data): one turn, asking for an image, with the seed, the
/// number of candidates and the aspect ratio that are given.
pub open spec fn is_gemini_request(
    request: GeminiRequest,
    prompt: String,
    image_data: Option<(String, String)>,
    seed: Option<i64>,
    aspect_ratio: Option<String>,
    candidate_count: Option<u8>,
) -> bool {
    &&& request.contents@.len() == 1
    &&& request.contents@[0].parts@ == request_parts(prompt, image_data)
    &&& request.generation_config.response_modalities@.len() == 1
    &&& request.generation_config.response_modalities@[0]@ == "IMAGE"@
    &&& request.generation_config.seed == seed
    &&& request.generation_config.candidate_count == candidate_count
    &&& match aspect_ratio {
        Some(r) => request.generation_config.image_config == Some(ImageConfig { aspect_ratio: r }),
        None => request.generation_config.image_config is None,
    }
}

/// Builds Gemini requests.
pub struct GeminiRequestBuilder;

impl GeminiRequestBuilder {
    /// A request with one turn holding the prompt and, when given, the image
    /// (MIME type and base64 data); it asks for an image, with the given seed,
    /// number of candidates and aspect ratio.
    pub fn build(
        prompt: String,
        image_data: Option<(String, String)>,
        seed: Option<i64>,
        aspect_ratio: Option<String>,
        candidate_count: Option<u8>,
    ) -> (request: GeminiRequest)
        ensures
            is_gemini_request(request, prompt, image_data, seed, aspect_ratio, candidate_count),
    {
        let ghost expected = request_parts(prompt, image_data);
        let mut parts: Vec<GeminiPart> = Vec::new();
        parts.push(GeminiPart::Text(prompt));
        match image_data {
            Some((mime_type, data)) => {
                parts.push(GeminiPart::InlineData(InlineData { mime_type, data }));
            },
            None => {},
        }
        assert(parts@ =~= expected);
        let mut contents: Vec<GeminiContent> = Vec::new();
        contents.push(GeminiContent { parts });
        let mut response_modalities: Vec<String> = Vec::new();
        response_modalities.push(owned("IMAGE"));
        let image_config = match aspect_ratio {
            Some(r) => Some(ImageConfig { aspect_ratio: r }),
            None => None,
        };
        GeminiRequest {
            contents,
            generation_config: GenerationConfig { response_modalities, seed, candidate_count, image_config },
        }
    }

    /// The request for a generation (no image) or an edit (the image given):
    /// the prompt, seed, aspect ratio and number of images of the parameters.
    pub fn from_params(params: GenerateParams, image_data: Option<(String, String)>) -> (request: GeminiRequest)
        ensures
            is_gemini_request(request, params.prompt, image_data, params.seed, params.ratio, params.n),
    {
        GeminiRequestBuilder::build(params.prompt, image_data, params.seed, params.ratio, params.n)
    }
}

} // verus!
