//! The parameters of an image request.
use vstd::prelude::*;

verus! {

/// Parameters for image generation; which ones matter depends on the flavor.
#[derive(Debug, Clone)]
pub struct GenerateParams {
    pub prompt: String,
    pub model: Option<String>,
    pub n: Option<u8>,
    pub size: Option<String>,
    pub ratio: Option<String>,
    pub quality: Option<String>,
    pub style: Option<String>,
    pub seed: Option<i64>,
    /// The image to edit: a session id, or the image data once resolved.
    pub image_id: Option<String>,
}

impl GenerateParams {
    /// Parameters with the given prompt and nothing else set.
    pub fn new(prompt: String) -> (params: Self)
        ensures
            params == (GenerateParams {
                prompt,
                model: None,
                n: None,
                size: None,
                ratio: None,
                quality: None,
                style: None,
                seed: None,
                image_id: None,
            }),
    {
        GenerateParams {
            prompt,
            model: None,
            n: None,
            size: None,
            ratio: None,
            quality: None,
            style: None,
            seed: None,
            image_id: None,
        }
    }

    /// The same parameters with the model set.
    pub fn with_model(self, model: String) -> (params: Self)
        ensures
            params == (GenerateParams { model: Some(model), ..self }),
    {
        GenerateParams { model: Some(model), ..self }
    }

    /// The same parameters with the size set.
    pub fn with_size(self, size: String) -> (params: Self)
        ensures
            params == (GenerateParams { size: Some(size), ..self }),
    {
        GenerateParams { size: Some(size), ..self }
    }

    /// The same parameters with the aspect ratio set.
    pub fn with_ratio(self, ratio: String) -> (params: Self)
        ensures
            params == (GenerateParams { ratio: Some(ratio), ..self }),
    {
        GenerateParams { ratio: Some(ratio), ..self }
    }

    /// The same parameters with the number of images set.
    pub fn with_n(self, n: u8) -> (params: Self)
        ensures
            params == (GenerateParams { n: Some(n), ..self }),
    {
        GenerateParams { n: Some(n), ..self }
    }

    /// The same parameters with the seed set.
    pub fn with_seed(self, seed: i64) -> (params: Self)
        ensures
            params == (GenerateParams { seed: Some(seed), ..self }),
    {
        GenerateParams { seed: Some(seed), ..self }
    }

    /// The same parameters with the quality set.
    pub fn with_quality(self, quality: String) -> (params: Self)
        ensures
            params == (GenerateParams { quality: Some(quality), ..self }),
    {
        GenerateParams { quality: Some(quality), ..self }
    }

    /// The same parameters with the style set.
    pub fn with_style(self, style: String) -> (params: Self)
        ensures
            params == (GenerateParams { style: Some(style), ..self }),
    {
        GenerateParams { style: Some(style), ..self }
    }

    /// The same parameters with the image to edit set.
    pub fn with_image_id(self, image_id: String) -> (params: Self)
        ensures
            params == (GenerateParams { image_id: Some(image_id), ..self }),
    {
        GenerateParams { image_id: Some(image_id), ..self }
    }
}

/// A source of fresh identifiers.
pub trait IdGenerator {
    fn generate(&self) -> String;
}

} // verus!
