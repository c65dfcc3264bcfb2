//! The openai-gen generation tool.
use vstd::prelude::*;
use crate::adapter::tools::GenerateImageOpenAiTool;
use crate::domain::traits::GenerateParams;
use crate::text::owned;

verus! {

/// An openai-gen generation: its parameters, and the model, quality and style
/// that the answer reports.
#[derive(Debug, Clone)]
pub struct OpenAiGeneration {
    pub params: GenerateParams,
    pub model: String,
    pub quality: String,
    pub style: String,
}

/// The generation a `generate_image_openai` call asks for: the default model,
/// size 1024x1024, one image, `standard` quality and `vivid` style unless
/// given.
pub fn generation_request(tool: GenerateImageOpenAiTool, default_model: String) -> (generation: OpenAiGeneration)
    ensures
        generation.model == match tool.model {
            Some(m) => m,
            None => default_model,
        },
        generation.quality@ == match tool.quality {
            Some(q) => q@,
            None => "standard"@,
        },
        generation.style@ == match tool.style {
            Some(s) => s@,
            None => "vivid"@,
        },
        generation.params.prompt == tool.prompt,
        generation.params.model == Some(generation.model),
        generation.params.size matches Some(size) && size@ == match tool.size {
            Some(s) => s@,
            None => "1024x1024"@,
        },
        generation.params.n == Some(
            match tool.n {
                Some(n) => n,
                None => 1u8,
            },
        ),
        generation.params.quality == Some(generation.quality),
        generation.params.style == Some(generation.style),
        generation.params.ratio is None,
        generation.params.seed is None,
        generation.params.image_id is None,
{
    let model = match tool.model {
        Some(m) => m,
        None => default_model,
    };
    let size = match tool.size {
        Some(s) => s,
        None => owned("1024x1024"),
    };
    let quality = match tool.quality {
        Some(q) => q,
        None => owned("standard"),
    };
    let style = match tool.style {
        Some(s) => s,
        None => owned("vivid"),
    };
    let n = match tool.n {
        Some(n) => n,
        None => 1u8,
    };
    let params = GenerateParams::new(tool.prompt).with_model(model.clone()).with_size(size).with_n(n).with_quality(
        quality.clone(),
    ).with_style(style.clone());
    OpenAiGeneration { params, model, quality, style }
}

} // verus!
