//! The request and response bodies of the Google Gemini API.
use vstd::prelude::*;

verus! {

/// A `generateContent` request.
#[derive(Debug, Clone)]
pub struct GeminiRequest {
    pub contents: Vec<GeminiContent>,
    pub generation_config: GenerationConfig,
}

/// One turn of content.
#[derive(Debug, Clone)]
pub struct GeminiContent {
    pub parts: Vec<GeminiPart>,
}

/// A piece of content: text, or inline data.
#[derive(Debug, Clone)]
pub enum GeminiPart {
    Text(String),
    InlineData(InlineData),
}

/// Base64 data with its MIME type.
#[derive(Debug, Clone)]
pub struct InlineData {
    pub mime_type: String,
    pub data: String,
}

/// What the model is asked to produce: the kinds of output, the seed, how
/// many candidates, and the shape of the image.
#[derive(Debug, Clone)]
pub struct GenerationConfig {
    pub response_modalities: Vec<String>,
    pub seed: Option<i64>,
    pub candidate_count: Option<u8>,
    pub image_config: Option<ImageConfig>,
}

/// The shape of the images asked for.
#[derive(Debug, Clone)]
pub struct ImageConfig {
    /// Aspect ratio such as `1:1`, `16:9` or `21:9`.
    pub aspect_ratio: String,
}

/// A `generateContent` response.
#[derive(Debug, Clone)]
pub struct GeminiResponse {
    pub candidates: Vec<GeminiCandidate>,
}

/// One candidate answer of the model.
#[derive(Debug, Clone)]
pub struct GeminiCandidate {
    pub content: Option<GeminiCandidateContent>,
    pub finish_reason: Option<String>,
}

/// The content of a candidate.
#[derive(Debug, Clone)]
pub struct GeminiCandidateContent {
    pub parts: Vec<GeminiCandidatePart>,
}

/// A part of a candidate's content; only inline data is read.
#[derive(Debug, Clone)]
pub struct GeminiCandidatePart {
    pub inline_data: Option<InlineData>,
}

/// The response of the model listing.
#[derive(Debug, Clone)]
pub struct GeminiModelsResponse {
    pub models: Vec<GeminiModelInfo>,
}

/// One listed model.
#[derive(Debug, Clone)]
pub struct GeminiModelInfo {
    pub name: String,
    pub supported_generation_methods: Vec<String>,
}

} // verus!
