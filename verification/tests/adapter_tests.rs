use image_mcp::adapter::handler::{route_tool, tool_names, unsupported_tool_message, ToolRoute};
use image_mcp::adapter::handlers::nano_banana;
use image_mcp::adapter::handlers::openai_gen;
use image_mcp::adapter::handlers::shared::continue_edit::edit_request;
use image_mcp::adapter::handlers::shared::list_models::catalog;
use image_mcp::adapter::handlers::standard;
use image_mcp::adapter::metadata::get_server_details;
use image_mcp::adapter::tools::{
    ContinueEditTool, GenerateImageNanoTool, GenerateImageOpenAiTool, GenerateImageTool,
};
use image_mcp::adapter::handlers::shared::list_models::build_list_models_response;
use image_mcp::cli::Flavor;
use image_mcp::domain::errors::DomainError;
use image_mcp::domain::traits::GenerateParams;

#[test]
fn tools_per_flavor() {
    assert_eq!(tool_names(Flavor::Standard), vec!["generate_image", "continue_edit", "list_models"]);
    assert_eq!(tool_names(Flavor::NanoBanana), vec!["generate_image_nano", "continue_edit", "list_models"]);
    assert_eq!(tool_names(Flavor::OpenAiGen), vec!["generate_image_openai", "continue_edit", "list_models"]);
}

#[test]
fn routing() {
    assert_eq!(route_tool(Flavor::NanoBanana, "generate_image_nano"), ToolRoute::GenerateNano);
    assert_eq!(route_tool(Flavor::NanoBanana, "generate_image"), ToolRoute::Unsupported);
    assert_eq!(route_tool(Flavor::OpenAiGen, "generate_image_openai"), ToolRoute::GenerateOpenAi);
    assert_eq!(route_tool(Flavor::Standard, "generate_image"), ToolRoute::GenerateStandard);
    assert_eq!(route_tool(Flavor::Standard, "continue_edit"), ToolRoute::ContinueEdit);
    assert_eq!(route_tool(Flavor::OpenAiGen, "list_models"), ToolRoute::ListModels);
    assert_eq!(route_tool(Flavor::OpenAiGen, "draw"), ToolRoute::Unsupported);
    assert_eq!(unsupported_tool_message("draw"), "Tool 'draw' not supported");
}

#[test]
fn every_listed_tool_is_routed() {
    for flavor in [Flavor::Standard, Flavor::NanoBanana, Flavor::OpenAiGen] {
        for name in tool_names(flavor) {
            assert_ne!(route_tool(flavor, &name), ToolRoute::Unsupported);
        }
    }
}

#[test]
fn nano_defaults() {
    let tool = GenerateImageNanoTool { prompt: "cat".to_string(), model: None, ratio: None, n: None, seed: None };
    let g = nano_banana::generation_request(tool, "nano-banana".to_string());
    assert_eq!(g.model, "nano-banana");
    assert_eq!(g.ratio, "1:1");
    assert_eq!(g.seed, None);
    assert_eq!(g.params.prompt, "cat");
    assert_eq!(g.params.model, Some("nano-banana".to_string()));
    assert_eq!(g.params.ratio, Some("1:1".to_string()));
    assert_eq!(g.params.n, Some(1));
    assert_eq!(g.params.seed, Some(0));
    let tool = GenerateImageNanoTool {
        prompt: "cat".to_string(),
        model: Some("nano-banana-pro".to_string()),
        ratio: Some("21:9".to_string()),
        n: Some(4),
        seed: Some(9000),
    };
    let g = nano_banana::generation_request(tool, "nano-banana".to_string());
    assert_eq!(g.model, "nano-banana-pro");
    assert_eq!(g.ratio, "21:9");
    assert_eq!(g.seed, Some(9000));
    assert_eq!(g.params.n, Some(4));
    assert_eq!(g.params.seed, Some(9000));
}

#[test]
fn openai_defaults() {
    let tool = GenerateImageOpenAiTool { prompt: "wolf".to_string(), model: None, size: None, n: None, quality: None, style: None };
    let g = openai_gen::generation_request(tool, "dall-e-3".to_string());
    assert_eq!(g.model, "dall-e-3");
    assert_eq!(g.quality, "standard");
    assert_eq!(g.style, "vivid");
    assert_eq!(g.params.size, Some("1024x1024".to_string()));
    assert_eq!(g.params.n, Some(1));
    assert_eq!(g.params.quality, Some("standard".to_string()));
    assert_eq!(g.params.style, Some("vivid".to_string()));
    let tool = GenerateImageOpenAiTool {
        prompt: "wolf".to_string(),
        model: Some("gpt-image-1".to_string()),
        size: Some("1792x1024".to_string()),
        n: Some(2),
        quality: Some("hd".to_string()),
        style: Some("natural".to_string()),
    };
    let g = openai_gen::generation_request(tool, "dall-e-3".to_string());
    assert_eq!(g.model, "gpt-image-1");
    assert_eq!(g.params.size, Some("1792x1024".to_string()));
    assert_eq!(g.params.n, Some(2));
    assert_eq!(g.quality, "hd");
    assert_eq!(g.style, "natural");
}

#[test]
fn standard_and_edit_requests() {
    let g = standard::generation_request(
        GenerateImageTool { prompt: "hill".to_string(), model: None, size: Some("512".to_string()), n: None },
        "nano-banana".to_string(),
    );
    assert_eq!(g.model, "nano-banana");
    assert_eq!(g.params.size, Some("512".to_string()));
    assert_eq!(g.params.n, Some(1));
    let e = edit_request(
        ContinueEditTool { image_id: "v7n9x".to_string(), prompt: "add a hat".to_string(), model: None },
        "nano-banana".to_string(),
    );
    assert_eq!(e.model, "nano-banana");
    assert_eq!(e.params.image_id, Some("v7n9x".to_string()));
    assert_eq!(e.params.prompt, "add a hat");
    assert_eq!(e.params.model, Some("nano-banana".to_string()));
}

#[test]
fn catalogs_and_details() {
    let c = catalog(Flavor::NanoBanana);
    assert_eq!(c.models, vec!["nano-banana", "nano-banana2"]);
    assert_eq!(c.flavor_name, "nano-banana");
    let c = catalog(Flavor::OpenAiGen);
    assert_eq!(c.models, vec!["gpt-image-1", "dall-e"]);
    assert_eq!(c.flavor_name, "openai-gen");
    let c = catalog(Flavor::Standard);
    assert_eq!(c.models, vec!["nano-banana", "nano-banana2", "gpt-image-1", "dall-e"]);
    assert_eq!(c.flavor_name, "standard");
    let d = get_server_details(Flavor::NanoBanana);
    assert_eq!(d.name, "image-mcp");
    assert_eq!(d.title, "Image Generation MCP Server");
    assert_eq!(d.description, "MCP server for image generation via OpenAI-compatible APIs");
    assert_eq!(d.instructions, format!("Flavor: {:?}. Generate images via OpenAI-compatible providers.", Flavor::NanoBanana));
}

#[test]
fn params_builders() {
    let p = GenerateParams::new("x".to_string());
    assert_eq!(p.model, None);
    assert_eq!(p.image_id, None);
    let p = p.with_model("m".to_string()).with_size("s".to_string()).with_ratio("r".to_string())
        .with_n(2).with_seed(5).with_quality("q".to_string()).with_style("st".to_string())
        .with_image_id("id".to_string());
    assert_eq!(p.prompt, "x");
    assert_eq!(p.model, Some("m".to_string()));
    assert_eq!(p.size, Some("s".to_string()));
    assert_eq!(p.ratio, Some("r".to_string()));
    assert_eq!(p.n, Some(2));
    assert_eq!(p.seed, Some(5));
    assert_eq!(p.quality, Some("q".to_string()));
    assert_eq!(p.style, Some("st".to_string()));
    assert_eq!(p.image_id, Some("id".to_string()));
}

#[test]
fn list_models_answer() {
    let listing = build_list_models_response(
        Flavor::OpenAiGen,
        "dall-e-3".to_string(),
        Ok(vec!["gpt-image-1".to_string(), "gpt-image-1.5".to_string()]),
    );
    assert_eq!(listing.flavor_name, "openai-gen");
    assert_eq!(listing.models, vec!["gpt-image-1", "dall-e"]);
    assert_eq!(listing.available_api_models, vec!["gpt-image-1", "gpt-image-1.5"]);
    assert_eq!(listing.default_model, "dall-e-3");
    let listing = build_list_models_response(
        Flavor::NanoBanana,
        "nano-banana".to_string(),
        Err(DomainError::Http("timeout".to_string())),
    );
    assert!(listing.available_api_models.is_empty());
    assert_eq!(listing.flavor_name, "nano-banana");
}
