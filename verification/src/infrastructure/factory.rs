//! Choosing the provider that a configuration talks to.
use vstd::prelude::*;
use super::google::client::GeminiImageClient;
use super::openai::client::OpenAiImageClient;
use crate::cli::Flavor;
use crate::domain::config::{effective_base_url, AppConfig, GEMINI_BASE_URL, OPENAI_BASE_URL};
use crate::text::{contains, has_infix, occurs_at};

verus! {

/// The provider that serves image requests.
#[derive(Debug, Clone)]
pub enum ProviderClient {
    Gemini(GeminiImageClient),
    OpenAi(OpenAiImageClient),
}

/// A base URL on Google's API domain is served by the Gemini provider.
pub open spec fn uses_gemini(base_url: Seq<char>) -> bool {
    has_infix(base_url, "googleapis.com"@)
}

/// Creates providers.
pub struct ProviderFactory;

impl ProviderFactory {
    /// The provider for a configuration: Gemini when the base URL contains
    /// `googleapis.com`, OpenAI otherwise.
    pub fn create_client(config: AppConfig) -> (client: ProviderClient)
        ensures
            uses_gemini(config.base_url@) ==> (client matches ProviderClient::Gemini(g)
                && g.config == config),
            !uses_gemini(config.base_url@) ==> (client matches ProviderClient::OpenAi(o)
                && o.config == config),
    {
        if contains(config.base_url.as_str(), "googleapis.com") {
            ProviderClient::Gemini(GeminiImageClient::new(config))
        } else {
            ProviderClient::OpenAi(OpenAiImageClient::new(config))
        }
    }
}

/// Law: left at the default base URL, the nano-banana flavor is served by
/// Gemini and the other flavors by OpenAI.
pub proof fn law_default_url_provider(flavor: Flavor)
    ensures
        flavor == Flavor::NanoBanana ==> uses_gemini(effective_base_url(flavor, OPENAI_BASE_URL@)),
        flavor != Flavor::NanoBanana ==> !uses_gemini(effective_base_url(flavor, OPENAI_BASE_URL@)),
{
    reveal_strlit("https://api.openai.com/v1");
    reveal_strlit("https://generativelanguage.googleapis.com/v1beta");
    reveal_strlit("googleapis.com");
    let gemini = GEMINI_BASE_URL@;
    let openai = OPENAI_BASE_URL@;
    let pattern = "googleapis.com"@;
    assert(occurs_at(gemini, pattern, 27)) by {
        assert(gemini.subrange(27, 41) =~= pattern);
    }
    assert forall|i: int| !occurs_at(openai, pattern, i) by {
        if occurs_at(openai, pattern, i) {
            assert(openai.subrange(i, i + pattern.len())[0] == pattern[0]);
            assert(openai[i] == 'g');
        }
    }
}

} // verus!
