//! Reading the OpenAI image options that requests name.
use vstd::prelude::*;
use crate::domain::config::AppConfig;
use crate::text::{owned, str_eq, view_str_opt};

verus! {

/// The image sizes of the OpenAI images API.
#[derive(Debug, Clone, Copy, PartialEq, Eq, Structural)]
pub enum ImageSize {
    S256x256,
    S512x512,
    S1024x1024,
    S1792x1024,
    S1024x1792,
    S1536x1024,
    S1024x1536,
}

/// The image models of the OpenAI images API.
#[derive(Debug, Clone)]
pub enum ImageModel {
    DallE2,
    DallE3,
    GptImage1,
    /// A model given by name.
    Other(String),
}

/// The image qualities of the OpenAI images API.
#[derive(Debug, Clone, Copy, PartialEq, Eq, Structural)]
pub enum ImageQuality {
    HD,
    Standard,
}

/// The image styles of the OpenAI images API.
#[derive(Debug, Clone, Copy, PartialEq, Eq, Structural)]
pub enum ImageStyle {
    Vivid,
    Natural,
}

/// The size a size word names; 1024x1024 for any other word or none.
pub open spec fn size_for(size: Option<Seq<char>>) -> ImageSize {
    match size {
        Some(s) => if s == "256"@ {
            ImageSize::S256x256
        } else if s == "512"@ {
            ImageSize::S512x512
        } else if s == "1024"@ {
            ImageSize::S1024x1024
        } else if s == "1792x1024"@ {
            ImageSize::S1792x1024
        } else if s == "1024x1792"@ {
            ImageSize::S1024x1792
        } else if s == "1536x1024"@ {
            ImageSize::S1536x1024
        } else if s == "1024x1536"@ {
            ImageSize::S1024x1536
        } else {
            ImageSize::S1024x1024
        },
        None => ImageSize::S1024x1024,
    }
}

/// The model name a requested model stands for: `dall-e` means `dall-e-3`,
/// other names stand for themselves, and no name means the configured model.
pub open spec fn openai_model_name(model: Option<Seq<char>>, configured: Seq<char>) -> Seq<char> {
    match model {
        Some(m) => if m == "dall-e"@ {
            "dall-e-3"@
        } else {
            m
        },
        None => configured,
    }
}

/// The quality a quality word names, if any.
pub open spec fn quality_for(quality: Option<Seq<char>>) -> Option<ImageQuality> {
    match quality {
        Some(q) => if q == "hd"@ {
            Some(ImageQuality::HD)
        } else if q == "standard"@ {
            Some(ImageQuality::Standard)
        } else {
            None
        },
        None => None,
    }
}

/// The style a style word names, if any.
pub open spec fn style_for(style: Option<Seq<char>>) -> Option<ImageStyle> {
    match style {
        Some(s) => if s == "vivid"@ {
            Some(ImageStyle::Vivid)
        } else if s == "natural"@ {
            Some(ImageStyle::Natural)
        } else {
            None
        },
        None => None,
    }
}

/// Reads the OpenAI image options.
pub struct OpenAiUtils;

impl OpenAiUtils {
    /// The size a size word names.
    pub fn parse_size(size: Option<&str>) -> (parsed: ImageSize)
        ensures
            parsed == size_for(view_str_opt(size)),
    {
        match size {
            Some(s) => if str_eq(s, "256") {
                ImageSize::S256x256
            } else if str_eq(s, "512") {
                ImageSize::S512x512
            } else if str_eq(s, "1024") {
                ImageSize::S1024x1024
            } else if str_eq(s, "1792x1024") {
                ImageSize::S1792x1024
            } else if str_eq(s, "1024x1792") {
                ImageSize::S1024x1792
            } else if str_eq(s, "1536x1024") {
                ImageSize::S1536x1024
            } else if str_eq(s, "1024x1536") {
                ImageSize::S1024x1536
            } else {
                ImageSize::S1024x1024
            },
            None => ImageSize::S1024x1024,
        }
    }

    /// The model a requested model name stands for, always given by name.
    pub fn parse_model(model: Option<&str>, config: &AppConfig) -> (parsed: ImageModel)
        ensures
            parsed matches ImageModel::Other(name) && name@ == openai_model_name(
                view_str_opt(model),
                config.image_model@,
            ),
    {
        let name = match model {
            Some(m) => if str_eq(m, "dall-e") {
                owned("dall-e-3")
            } else if str_eq(m, "gpt-image-1") {
                owned("gpt-image-1")
            } else {
                owned(m)
            },
            None => config.image_model.clone(),
        };
        ImageModel::Other(name)
    }

    /// The quality a quality word names.
    pub fn parse_quality(quality: Option<&str>) -> (parsed: Option<ImageQuality>)
        ensures
            parsed == quality_for(view_str_opt(quality)),
    {
        match quality {
            Some(q) => if str_eq(q, "hd") {
                Some(ImageQuality::HD)
            } else if str_eq(q, "standard") {
                Some(ImageQuality::Standard)
            } else {
                None
            },
            None => None,
        }
    }

    /// The style a style word names.
    pub fn parse_style(style: Option<&str>) -> (parsed: Option<ImageStyle>)
        ensures
            parsed == style_for(view_str_opt(style)),
    {
        match style {
            Some(s) => if str_eq(s, "vivid") {
                Some(ImageStyle::Vivid)
            } else if str_eq(s, "natural") {
                Some(ImageStyle::Natural)
            } else {
                None
            },
            None => None,
        }
    }
}

/// Law: only the exact name `dall-e` is rewritten (to `dall-e-3`); every
/// other requested name is sent as it is, and no name means the configured one.
pub proof fn law_only_dall_e_is_rewritten(model: Seq<char>, configured: Seq<char>)
    ensures
        model != "dall-e"@ ==> openai_model_name(Some(model), configured) == model,
        openai_model_name(Some("dall-e"@), configured) == "dall-e-3"@,
        openai_model_name(None, configured) == configured,
{
}

} // verus!
