//! The arguments of the MCP tools.
use vstd::prelude::*;

verus! {

/// `generate_image` (standard flavor): a new image from a text prompt.
#[derive(Debug, Clone)]
pub struct GenerateImageTool {
    pub prompt: String,
    pub model: Option<String>,
    /// Size: 256, 512, 1024, 1792x1024, 1024x1792
    pub size: Option<String>,
    pub n: Option<u8>,
}

/// `generate_image_nano` (nano-banana flavor): with aspect ratio and seed.
#[derive(Debug, Clone)]
pub struct GenerateImageNanoTool {
    pub prompt: String,
    pub model: Option<String>,
    /// Aspect ratio: 1:1, 16:9, 9:16, 4:3, 3:4, 21:9
    pub ratio: Option<String>,
    pub n: Option<u8>,
    /// Seed for reproducible generation
    pub seed: Option<i64>,
}

/// `generate_image_openai` (openai-gen flavor): with quality and style.
#[derive(Debug, Clone)]
pub struct GenerateImageOpenAiTool {
    pub prompt: String,
    pub model: Option<String>,
    /// Size: 1024x1024, 1792x1024, 1024x1792
    pub size: Option<String>,
    pub n: Option<u8>,
    /// Quality: standard or hd
    pub quality: Option<String>,
    /// Style: vivid or natural
    pub style: Option<String>,
}

/// `continue_edit`: refines an image of the session, named by its identifier.
#[derive(Debug, Clone)]
pub struct ContinueEditTool {
    /// The identifier of the image to edit (from a previous generation)
    pub image_id: String,
    /// What changes to apply to the image
    pub prompt: String,
    pub model: Option<String>,
}

/// `list_models`: the available models and the configuration in use.
#[derive(Debug, Clone)]
pub struct ListModelsTool {}

} // verus!
