//! The standard generation tool.
use vstd::prelude::*;
use crate::adapter::tools::GenerateImageTool;
use crate::domain::traits::GenerateParams;

verus! {

/// A standard generation: its parameters, and the model that the answer reports.
#[derive(Debug, Clone)]
pub struct StandardGeneration {
    pub params: GenerateParams,
    pub model: String,
}

/// The generation a `generate_image` call asks for: the default model unless
/// given, the size when given, and one image unless a number is given.
pub fn generation_request(tool: GenerateImageTool, default_model: String) -> (generation: StandardGeneration)
    ensures
        generation.model == match tool.model {
            Some(m) => m,
            None => default_model,
        },
        generation.params == (GenerateParams {
            prompt: tool.prompt,
            model: Some(generation.model),
            n: Some(
                match tool.n {
                    Some(n) => n,
                    None => 1u8,
                },
            ),
            size: tool.size,
            ratio: None,
            quality: None,
            style: None,
            seed: None,
            image_id: None,
        }),
{
    let model = match tool.model {
        Some(m) => m,
        None => default_model,
    };
    let n = match tool.n {
        Some(n) => n,
        None => 1u8,
    };
    let base = GenerateParams::new(tool.prompt).with_model(model.clone()).with_n(n);
    let params = match tool.size {
        Some(size) => base.with_size(size),
        None => base,
    };
    StandardGeneration { params, model }
}

} // verus!
