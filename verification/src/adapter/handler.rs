//! Which tools each flavor offers, and which handler a tool call goes to.
use vstd::prelude::*;
use crate::cli::Flavor;
use crate::text::{owned, str_eq, view_strings};

verus! {

/// The tools a flavor offers, in the order they are listed: its generation
/// tool, then `continue_edit` and `list_models`.
pub open spec fn flavor_tools(flavor: Flavor) -> Seq<Seq<char>> {
    match flavor {
        Flavor::Standard => seq!["generate_image"@, "continue_edit"@, "list_models"@],
        Flavor::NanoBanana => seq!["generate_image_nano"@, "continue_edit"@, "list_models"@],
        Flavor::OpenAiGen => seq!["generate_image_openai"@, "continue_edit"@, "list_models"@],
    }
}

/// The handler of a tool call.
#[derive(Debug, Clone, Copy, PartialEq, Eq, Structural)]
pub enum ToolRoute {
    GenerateStandard,
    GenerateNano,
    GenerateOpenAi,
    ContinueEdit,
    ListModels,
    /// The flavor offers no tool of that name.
    Unsupported,
}

/// The handler that a flavor sends a tool call of the given name to.
pub open spec fn route_for(flavor: Flavor, name: Seq<char>) -> ToolRoute {
    if name == "continue_edit"@ {
        ToolRoute::ContinueEdit
    } else if name == "list_models"@ {
        ToolRoute::ListModels
    } else {
        match flavor {
            Flavor::Standard => if name == "generate_image"@ {
                ToolRoute::GenerateStandard
            } else {
                ToolRoute::Unsupported
            },
            Flavor::NanoBanana => if name == "generate_image_nano"@ {
                ToolRoute::GenerateNano
            } else {
                ToolRoute::Unsupported
            },
            Flavor::OpenAiGen => if name == "generate_image_openai"@ {
                ToolRoute::GenerateOpenAi
            } else {
                ToolRoute::Unsupported
            },
        }
    }
}

/// The names of the tools a flavor offers.
pub fn tool_names(flavor: Flavor) -> (names: Vec<String>)
    ensures
        view_strings(names@) == flavor_tools(flavor),
{
    let mut names: Vec<String> = Vec::new();
    match flavor {
        Flavor::Standard => names.push(owned("generate_image")),
        Flavor::NanoBanana => names.push(owned("generate_image_nano")),
        Flavor::OpenAiGen => names.push(owned("generate_image_openai")),
    }
    names.push(owned("continue_edit"));
    names.push(owned("list_models"));
    assert(view_strings(names@) =~= flavor_tools(flavor));
    names
}

/// The handler of a tool call in the given flavor.
pub fn route_tool(flavor: Flavor, name: &str) -> (route: ToolRoute)
    ensures
        route == route_for(flavor, name@),
{
    if str_eq(name, "continue_edit") {
        ToolRoute::ContinueEdit
    } else if str_eq(name, "list_models") {
        ToolRoute::ListModels
    } else {
        match flavor {
            Flavor::Standard => if str_eq(name, "generate_image") {
                ToolRoute::GenerateStandard
            } else {
                ToolRoute::Unsupported
            },
            Flavor::NanoBanana => if str_eq(name, "generate_image_nano") {
                ToolRoute::GenerateNano
            } else {
                ToolRoute::Unsupported
            },
            Flavor::OpenAiGen => if str_eq(name, "generate_image_openai") {
                ToolRoute::GenerateOpenAi
            } else {
                ToolRoute::Unsupported
            },
        }
    }
}

/// The answer to a call of a tool that the flavor does not offer.
pub fn unsupported_tool_message(name: &str) -> (text: String)
    ensures
        text@ == "Tool '"@ + name@ + "' not supported"@,
{
    let mut text = owned("Tool '");
    text.append(name);
    text.append("' not supported");
    text
}

/// Law: a flavor handles a tool call exactly when it lists a tool of that
/// name.
pub proof fn law_routes_match_listed_tools(flavor: Flavor, name: Seq<char>)
    ensures
        route_for(flavor, name) != ToolRoute::Unsupported <==> flavor_tools(flavor).contains(name),
{
    let tools = flavor_tools(flavor);
    if route_for(flavor, name) != ToolRoute::Unsupported {
        if name == "continue_edit"@ {
            assert(tools[1] == name);
        } else if name == "list_models"@ {
            assert(tools[2] == name);
        } else {
            assert(tools[0] == name);
        }
    } else {
        assert forall|i: int| 0 <= i < tools.len() implies tools[i] != name by {
            if i == 0 {
            } else if i == 1 {
            } else {
            }
        }
    }
}

/// Law: in every flavor, each tool name is answered by that same tool's
/// handler: `list_models` by the listing, `continue_edit` by the edit, and
/// each generation tool by its own flavor's generation; a generation tool of
/// another flavor is not handled.
pub proof fn law_each_tool_routes_to_its_own_handler(flavor: Flavor)
    ensures
        route_for(flavor, "list_models"@) == ToolRoute::ListModels,
        route_for(flavor, "continue_edit"@) == ToolRoute::ContinueEdit,
        route_for(Flavor::Standard, "generate_image"@) == ToolRoute::GenerateStandard,
        route_for(Flavor::NanoBanana, "generate_image_nano"@) == ToolRoute::GenerateNano,
        route_for(Flavor::OpenAiGen, "generate_image_openai"@) == ToolRoute::GenerateOpenAi,
        flavor != Flavor::Standard ==> route_for(flavor, "generate_image"@) == ToolRoute::Unsupported,
        flavor != Flavor::NanoBanana ==> route_for(flavor, "generate_image_nano"@) == ToolRoute::Unsupported,
        flavor != Flavor::OpenAiGen ==> route_for(flavor, "generate_image_openai"@) == ToolRoute::Unsupported,
{
    reveal_strlit("list_models");
    reveal_strlit("continue_edit");
    reveal_strlit("generate_image");
    reveal_strlit("generate_image_nano");
    reveal_strlit("generate_image_openai");
    assert("list_models"@.len() == 11);
    assert("continue_edit"@.len() == 13);
    assert("generate_image"@.len() == 14);
    assert("generate_image_nano"@.len() == 19);
    assert("generate_image_openai"@.len() == 21);
}

} // verus!
