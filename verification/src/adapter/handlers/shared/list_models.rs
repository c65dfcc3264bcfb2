//! The `list_models` tool, shared by all flavors.
use vstd::prelude::*;
use crate::cli::Flavor;
use crate::domain::errors::DomainResult;
use crate::text::{owned, view_strings};

verus! {

/// The friendly model names a flavor presents.
pub open spec fn friendly_models(flavor: Flavor) -> Seq<Seq<char>> {
    match flavor {
        Flavor::NanoBanana => seq!["nano-banana"@, "nano-banana2"@],
        Flavor::OpenAiGen => seq!["gpt-image-1"@, "dall-e"@],
        Flavor::Standard => seq!["nano-banana"@, "nano-banana2"@, "gpt-image-1"@, "dall-e"@],
    }
}

/// The name under which a flavor presents itself.
pub open spec fn flavor_name(flavor: Flavor) -> Seq<char> {
    match flavor {
        Flavor::NanoBanana => "nano-banana"@,
        Flavor::OpenAiGen => "openai-gen"@,
        Flavor::Standard => "standard"@,
    }
}

/// The friendly models of a flavor and the flavor's name.
#[derive(Debug, Clone)]
pub struct ModelCatalog {
    pub models: Vec<String>,
    pub flavor_name: String,
}

/// The friendly models and the name of a flavor.
pub fn catalog(flavor: Flavor) -> (c: ModelCatalog)
    ensures
        view_strings(c.models@) == friendly_models(flavor),
        c.flavor_name@ == flavor_name(flavor),
{
    let mut models: Vec<String> = Vec::new();
    let name = match flavor {
        Flavor::NanoBanana => {
            models.push(owned("nano-banana"));
            models.push(owned("nano-banana2"));
            owned("nano-banana")
        },
        Flavor::OpenAiGen => {
            models.push(owned("gpt-image-1"));
            models.push(owned("dall-e"));
            owned("openai-gen")
        },
        Flavor::Standard => {
            models.push(owned("nano-banana"));
            models.push(owned("nano-banana2"));
            models.push(owned("gpt-image-1"));
            models.push(owned("dall-e"));
            owned("standard")
        },
    };
    assert(view_strings(models@) =~= friendly_models(flavor));
    ModelCatalog { models, flavor_name: name }
}

/// The answer of `list_models`: the flavor, its friendly models, the models
/// the provider reports, and the default model.
#[derive(Debug, Clone)]
pub struct ModelListing {
    pub flavor_name: String,
    pub models: Vec<String>,
    pub available_api_models: Vec<String>,
    pub default_model: String,
}

/// The answer of `list_models` from what the provider's listing returned: a
/// listing that failed shows no provider models.
pub fn build_list_models_response(
    flavor: Flavor,
    default_model: String,
    live_models: DomainResult<Vec<String>>,
) -> (listing: ModelListing)
    ensures
        view_strings(listing.models@) == friendly_models(flavor),
        listing.flavor_name@ == flavor_name(flavor),
        listing.available_api_models@ == match live_models {
            Ok(models) => models@,
            Err(_) => Seq::<String>::empty(),
        },
        listing.default_model == default_model,
{
    let c = catalog(flavor);
    let available_api_models = match live_models {
        Ok(models) => models,
        Err(_) => Vec::new(),
    };
    ModelListing { flavor_name: c.flavor_name, models: c.models, available_api_models, default_model }
}

} // verus!
