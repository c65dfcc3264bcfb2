//! What the server says of itself when a client connects.
use vstd::prelude::*;
use crate::cli::Flavor;
use crate::text::owned;

verus! {

/// The name of a flavor as `Debug` writes it.
pub open spec fn flavor_debug_name(flavor: Flavor) -> Seq<char> {
    match flavor {
        Flavor::Standard => "Standard"@,
        Flavor::NanoBanana => "NanoBanana"@,
        Flavor::OpenAiGen => "OpenAiGen"@,
    }
}

/// The server's name, title and description, and its instructions to clients.
#[derive(Debug, Clone)]
pub struct ServerDetails {
    pub name: String,
    pub title: String,
    pub description: String,
    pub instructions: String,
}

/// The details of the server in the given flavor; the instructions name the
/// flavor.
pub fn get_server_details(flavor: Flavor) -> (details: ServerDetails)
    ensures
        details.name@ == "image-mcp"@,
        details.title@ == "Image Generation MCP Server"@,
        details.description@ == "MCP server for image generation via OpenAI-compatible APIs"@,
        details.instructions@ == "Flavor: "@ + flavor_debug_name(flavor)
            + ". Generate images via OpenAI-compatible providers."@,
{
    let mut instructions = owned("Flavor: ");
    match flavor {
        Flavor::Standard => instructions.append("Standard"),
        Flavor::NanoBanana => instructions.append("NanoBanana"),
        Flavor::OpenAiGen => instructions.append("OpenAiGen"),
    }
    instructions.append(". Generate images via OpenAI-compatible providers.");
    ServerDetails {
        name: owned("image-mcp"),
        title: owned("Image Generation MCP Server"),
        description: owned("MCP server for image generation via OpenAI-compatible APIs"),
        instructions,
    }
}

} // verus!
