//! Command-line settings of the server and the flavor they select.
use vstd::prelude::*;

verus! {

/// The provider-specific feature set that the server exposes.
#[derive(Debug, Clone, Copy, PartialEq, Eq, Structural)]
pub enum Flavor {
    Standard,
    NanoBanana,
    OpenAiGen,
}

/// The settings read from the command line and the environment.
#[derive(Debug, Clone)]
pub struct Cli {
    /// OpenAI-compatible API key
    pub api_key: String,
    /// Base URL for the OpenAI-compatible API
    pub base_url: String,
    /// Default image generation model
    pub image_model: String,
    /// Embedding model for text
    pub embedding_model: String,
    /// Transport mode: stdio or http
    pub transport_mode: String,
    /// HTTP server host (when the transport mode is http)
    pub host: String,
    /// HTTP server port (when the transport mode is http)
    pub port: u16,
    /// Enables the nano-banana flavor (ratio and seed support)
    pub nano_banana: bool,
    /// Enables the OpenAI generation flavor (quality and style support)
    pub openai_gen: bool,
    /// Output mode: url or file
    pub output_format: String,
    /// Directory where images are saved in file mode
    pub output_dir: String,
}

/// The flavor selected by the two flavor switches: nano-banana wins over
/// openai-gen, and with neither the flavor is the standard one.
pub open spec fn selected_flavor(nano_banana: bool, openai_gen: bool) -> Flavor {
    if nano_banana {
        Flavor::NanoBanana
    } else if openai_gen {
        Flavor::OpenAiGen
    } else {
        Flavor::Standard
    }
}

impl Cli {
    /// The flavor that these settings select.
    pub fn flavor(&self) -> (flavor: Flavor)
        ensures
            flavor == selected_flavor(self.nano_banana, self.openai_gen),
    {
        if self.nano_banana {
            Flavor::NanoBanana
        } else if self.openai_gen {
            Flavor::OpenAiGen
        } else {
            Flavor::Standard
        }
    }
}

} // verus!
