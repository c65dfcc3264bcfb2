//! The configuration that the service runs with.
use vstd::prelude::*;
use crate::cli::{selected_flavor, Cli, Flavor};
use crate::text::str_eq;

verus! {

/// The base URL of the OpenAI API, the default for `--base-url`.
pub const OPENAI_BASE_URL: &'static str = "https://api.openai.com/v1";

/// The base URL of the Google Gemini API.
pub const GEMINI_BASE_URL: &'static str = "https://generativelanguage.googleapis.com/v1beta";

/// How the MCP server talks to its client.
#[derive(Debug, Clone, Copy, PartialEq, Eq, Structural)]
pub enum TransportMode {
    Stdio,
    Http,
}

/// How generated images are handed back.
#[derive(Debug, Clone, Copy, PartialEq, Eq, Structural)]
pub enum OutputFormat {
    Url,
    File,
}

/// Configuration for the image generation service.
#[derive(Debug, Clone)]
pub struct AppConfig {
    pub api_key: String,
    pub base_url: String,
    pub image_model: String,
    pub transport_mode: TransportMode,
    pub host: String,
    pub flavor: Flavor,
    pub output_format: OutputFormat,
    pub output_dir: String,
}

/// The base URL in effect: the nano-banana flavor with the default OpenAI URL
/// talks to Google Gemini instead; any other URL is kept.
pub open spec fn effective_base_url(flavor: Flavor, base_url: Seq<char>) -> Seq<char> {
    if flavor == Flavor::NanoBanana && base_url == OPENAI_BASE_URL@ {
        GEMINI_BASE_URL@
    } else {
        base_url
    }
}

/// `http` selects the HTTP transport; any other word selects stdio.
pub open spec fn transport_for(word: Seq<char>) -> TransportMode {
    if word == "http"@ {
        TransportMode::Http
    } else {
        TransportMode::Stdio
    }
}

/// `file` selects saving to files; any other word selects URLs.
pub open spec fn output_format_for(word: Seq<char>) -> OutputFormat {
    if word == "file"@ {
        OutputFormat::File
    } else {
        OutputFormat::Url
    }
}

impl AppConfig {
    /// Builds the configuration from the command-line settings.
    pub fn from_cli(cli: Cli) -> (config: Self)
        ensures
            config.flavor == selected_flavor(cli.nano_banana, cli.openai_gen),
            config.base_url@ == effective_base_url(config.flavor, cli.base_url@),
            config.api_key@ == cli.api_key@,
            config.image_model@ == cli.image_model@,
            config.transport_mode == transport_for(cli.transport_mode@),
            config.host@ == cli.host@,
            config.output_format == output_format_for(cli.output_format@),
            config.output_dir@ == cli.output_dir@,
    {
        let flavor = cli.flavor();
        let base_url = if flavor == Flavor::NanoBanana && str_eq(cli.base_url.as_str(), OPENAI_BASE_URL) {
            String::from_str(GEMINI_BASE_URL)
        } else {
            cli.base_url
        };
        let transport_mode = if str_eq(cli.transport_mode.as_str(), "http") {
            TransportMode::Http
        } else {
            TransportMode::Stdio
        };
        let output_format = if str_eq(cli.output_format.as_str(), "file") {
            OutputFormat::File
        } else {
            OutputFormat::Url
        };
        AppConfig {
            api_key: cli.api_key,
            base_url,
            image_model: cli.image_model,
            transport_mode,
            host: cli.host,
            flavor,
            output_format,
            output_dir: cli.output_dir,
        }
    }
}

/// Law: a base URL the user set is never replaced: only the nano-banana
/// flavor, and only at the OpenAI default URL, switches to Gemini.
pub proof fn law_user_base_url_kept(flavor: Flavor, base_url: Seq<char>)
    ensures
        base_url != OPENAI_BASE_URL@ ==> effective_base_url(flavor, base_url) == base_url,
        flavor != Flavor::NanoBanana ==> effective_base_url(flavor, base_url) == base_url,
        flavor == Flavor::NanoBanana && base_url == OPENAI_BASE_URL@ ==> effective_base_url(
            flavor,
            base_url,
        ) == GEMINI_BASE_URL@,
{
}

} // verus!
