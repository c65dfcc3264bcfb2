//! The nano-banana generation tool.
use vstd::prelude::*;
use crate::adapter::tools::GenerateImageNanoTool;
use crate::domain::traits::GenerateParams;
use crate::text::owned;

verus! {

/// A nano-banana generation: its parameters, and the model, ratio and seed
/// that the answer reports.
#[derive(Debug, Clone)]
pub struct NanoGeneration {
    pub params: GenerateParams,
    pub model: String,
    pub ratio: String,
    pub seed: Option<i64>,
}

/// The generation a `generate_image_nano` call asks for: the default model
/// and the 1:1 ratio unless given, one image unless a number is given, and
/// seed 0 unless a seed is given (the answer reports the seed as given).
pub fn generation_request(tool: GenerateImageNanoTool, default_model: String) -> (generation: NanoGeneration)
    ensures
        generation.model == match tool.model {
            Some(m) => m,
            None => default_model,
        },
        generation.ratio@ == match tool.ratio {
            Some(r) => r@,
            None => "1:1"@,
        },
        generation.seed == tool.seed,
        generation.params == (GenerateParams {
            prompt: tool.prompt,
            model: Some(generation.model),
            n: Some(
                match tool.n {
                    Some(n) => n,
                    None => 1u8,
                },
            ),
            size: None,
            ratio: Some(generation.ratio),
            quality: None,
            style: None,
            seed: Some(
                match tool.seed {
                    Some(s) => s,
                    None => 0i64,
                },
            ),
            image_id: None,
        }),
{
    let model = match tool.model {
        Some(m) => m,
        None => default_model,
    };
    let ratio = match tool.ratio {
        Some(r) => r,
        None => owned("1:1"),
    };
    let n = match tool.n {
        Some(n) => n,
        None => 1u8,
    };
    let seed = match tool.seed {
        Some(s) => s,
        None => 0i64,
    };
    let params = GenerateParams::new(tool.prompt).with_model(model.clone()).with_ratio(ratio.clone()).with_n(
        n,
    ).with_seed(seed);
    NanoGeneration { params, model, ratio, seed: tool.seed }
}

} // verus!
