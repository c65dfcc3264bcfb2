use image_mcp::cli::Flavor;
use image_mcp::domain::config::{AppConfig, OutputFormat, TransportMode};
use image_mcp::domain::errors::DomainError;
use image_mcp::domain::traits::GenerateParams;
use image_mcp::infrastructure::google::client::{
    format_data_url, image_model_names, image_source, interpret_generate_reply, remote_image_part,
    reply_images, GeminiImageClient, GeminiImageSource,
};
use image_mcp::infrastructure::google::request::GeminiRequestBuilder;
use image_mcp::infrastructure::google::types::{
    GeminiCandidate, GeminiCandidateContent, GeminiCandidatePart, GeminiModelInfo, GeminiModelsResponse,
    GeminiPart, GeminiResponse, InlineData,
};

fn config(image_model: &str) -> AppConfig {
    AppConfig {
        api_key: "KEY".to_string(),
        base_url: "https://generativelanguage.googleapis.com/v1beta".to_string(),
        image_model: image_model.to_string(),
        transport_mode: TransportMode::Stdio,
        host: "0.0.0.0".to_string(),
        flavor: Flavor::NanoBanana,
        output_format: OutputFormat::Url,
        output_dir: "./outputs".to_string(),
    }
}

fn image_err(r: Result<impl std::fmt::Debug, DomainError>) -> String {
    match r {
        Err(DomainError::Image(m)) => m,
        other => panic!("expected an image error, got {:?}", other),
    }
}

#[test]
fn model_mappings() {
    let client = GeminiImageClient::new(config("nano-banana"));
    assert_eq!(client.map_model(Some("nano-banana")), "gemini-2.5-flash-image");
    assert_eq!(client.map_model(Some("nano-banana2")), "gemini-3.1-flash-image-preview");
    assert_eq!(client.map_model(Some("nano-banana 2")), "gemini-3.1-flash-image-preview");
    assert_eq!(client.map_model(Some("nano-banana-pro")), "nano-banana-pro-preview");
    assert_eq!(client.map_model(Some("imagen-4")), "imagen-4");
    assert_eq!(client.map_model(None), "gemini-2.5-flash-image");
    let client = GeminiImageClient::new(config("nano-banana2"));
    assert_eq!(client.map_model(None), "gemini-3.1-flash-image-preview");
    assert_eq!(client.map_model(None), client.map_model(Some("nano-banana2")));
    let client = GeminiImageClient::new(config("nano-banana-pro"));
    assert_eq!(client.map_model(None), "nano-banana-pro-preview");
    let client = GeminiImageClient::new(config("imagen-4"));
    assert_eq!(client.map_model(None), "imagen-4");
}

#[test]
fn urls() {
    let client = GeminiImageClient::new(config("nano-banana"));
    assert_eq!(
        client.generate_url("gemini-2.5-flash-image"),
        "https://generativelanguage.googleapis.com/v1beta/models/gemini-2.5-flash-image:generateContent?key=KEY"
    );
    assert_eq!(client.models_url(), "https://generativelanguage.googleapis.com/v1beta/models?key=KEY");
}

fn model(name: &str, methods: &[&str]) -> GeminiModelInfo {
    GeminiModelInfo {
        name: name.to_string(),
        supported_generation_methods: methods.iter().map(|m| m.to_string()).collect(),
    }
}

#[test]
fn listing_keeps_image_models() {
    let listing = GeminiModelsResponse {
        models: vec![
            model("models/gemini-2.5-flash-image", &["generateContent"]),
            model("models/gemini-2.5-pro", &["generateContent"]),
            model("models/IMAGEN-4", &["countTokens", "generateContent"]),
            model("models/nano-banana-pro-preview", &["generateContent"]),
            model("models/imagen-3", &["predict"]),
            model("models/lyria-2", &["generateContent"]),
        ],
    };
    assert_eq!(
        image_model_names(&listing),
        vec!["gemini-2.5-flash-image", "IMAGEN-4", "nano-banana-pro-preview", "lyria-2"]
    );
}

#[test]
fn data_url_sources() {
    match image_source(Some("data:image/jpeg;base64,AAAA".to_string())).unwrap() {
        GeminiImageSource::Inline { mime_type, data } => {
            assert_eq!(mime_type, "image/jpeg");
            assert_eq!(data, "AAAA");
        }
        other => panic!("{:?}", other),
    }
    match image_source(Some("https://img.example/cat.png".to_string())).unwrap() {
        GeminiImageSource::Remote(url) => assert_eq!(url, "https://img.example/cat.png"),
        other => panic!("{:?}", other),
    }
    assert_eq!(image_err(image_source(Some("data:image/png;base64".to_string()))), "Invalid data URL");
    assert_eq!(image_err(image_source(None)), "Missing image");
    assert_eq!(image_err(image_source(Some("data:image/png;base64,AA,BB".to_string()))), "Invalid data URL");
}

#[test]
fn data_url_round_trip() {
    let url = format_data_url("image/webp", "UklGRg==");
    assert_eq!(url, "data:image/webp;base64,UklGRg==");
    match image_source(Some(url)).unwrap() {
        GeminiImageSource::Inline { mime_type, data } => {
            assert_eq!(mime_type, "image/webp");
            assert_eq!(data, "UklGRg==");
        }
        other => panic!("{:?}", other),
    }
}

#[test]
fn downloaded_image_part() {
    let (mime, data) = remote_image_part(Some("image/gif".to_string()), b"hello");
    assert_eq!(mime, "image/gif");
    assert_eq!(data, "aGVsbG8=");
    assert_eq!(base64::Engine::decode(&base64::engine::general_purpose::STANDARD, &data).unwrap(), b"hello".to_vec());
    let (mime, data) = remote_image_part(None, &[]);
    assert_eq!(mime, "image/png");
    assert_eq!(data, "");
}

#[test]
fn request_building() {
    let request = GeminiRequestBuilder::build("a cat".to_string(), None, Some(7), None, None);
    assert_eq!(request.contents.len(), 1);
    assert_eq!(request.contents[0].parts.len(), 1);
    assert!(matches!(&request.contents[0].parts[0], GeminiPart::Text(t) if t == "a cat"));
    assert_eq!(request.generation_config.response_modalities, vec!["IMAGE".to_string()]);
    assert_eq!(request.generation_config.seed, Some(7));
    assert_eq!(request.generation_config.candidate_count, None);
    assert!(request.generation_config.image_config.is_none());
    let request = GeminiRequestBuilder::build(
        "add a hat".to_string(),
        Some(("image/png".to_string(), "AAAA".to_string())),
        None,
        Some("16:9".to_string()),
        Some(2),
    );
    assert_eq!(request.contents[0].parts.len(), 2);
    assert!(matches!(&request.contents[0].parts[0], GeminiPart::Text(t) if t == "add a hat"));
    assert!(matches!(&request.contents[0].parts[1],
        GeminiPart::InlineData(InlineData { mime_type, data }) if mime_type == "image/png" && data == "AAAA"));
    assert_eq!(request.generation_config.seed, None);
    assert_eq!(request.generation_config.candidate_count, Some(2));
    assert_eq!(request.generation_config.image_config.unwrap().aspect_ratio, "16:9");
}

#[test]
fn request_from_nano_parameters() {
    let params = GenerateParams::new("Minimalist app icon for fitness app".to_string())
        .with_ratio("21:9".to_string())
        .with_n(4)
        .with_seed(9000);
    let request = GeminiRequestBuilder::from_params(params, None);
    assert_eq!(request.contents[0].parts.len(), 1);
    assert!(matches!(&request.contents[0].parts[0], GeminiPart::Text(t) if t == "Minimalist app icon for fitness app"));
    assert_eq!(request.generation_config.seed, Some(9000));
    assert_eq!(request.generation_config.candidate_count, Some(4));
    assert_eq!(request.generation_config.image_config.unwrap().aspect_ratio, "21:9");
}

fn part(mime: &str, data: &str) -> GeminiCandidatePart {
    GeminiCandidatePart { inline_data: Some(InlineData { mime_type: mime.to_string(), data: data.to_string() }) }
}

#[test]
fn reply_reading() {
    let reply = GeminiResponse {
        candidates: vec![
            GeminiCandidate {
                content: Some(GeminiCandidateContent {
                    parts: vec![GeminiCandidatePart { inline_data: None }, part("image/png", "AAA"), part("image/jpeg", "BBB")],
                }),
                finish_reason: Some("STOP".to_string()),
            },
            GeminiCandidate { content: None, finish_reason: None },
            GeminiCandidate {
                content: Some(GeminiCandidateContent { parts: vec![part("image/png", "CCC")] }),
                finish_reason: None,
            },
        ],
    };
    let expected = vec![
        "data:image/png;base64,AAA".to_string(),
        "data:image/jpeg;base64,BBB".to_string(),
        "data:image/png;base64,CCC".to_string(),
    ];
    assert_eq!(reply_images(&reply), expected);
    assert_eq!(interpret_generate_reply(true, "200 OK", "{}", Ok(reply)).unwrap(), expected);
}

#[test]
fn reply_errors() {
    assert_eq!(
        image_err(interpret_generate_reply(false, "400 Bad Request", "oops", Err("ignored".to_string()))),
        "Gemini Error (400 Bad Request): oops"
    );
    assert_eq!(
        image_err(interpret_generate_reply(true, "200 OK", "nope", Err("expected value".to_string()))),
        "error decoding response body: expected value"
    );
    let refused = GeminiResponse {
        candidates: vec![GeminiCandidate { content: None, finish_reason: Some("SAFETY".to_string()) }],
    };
    assert_eq!(
        image_err(interpret_generate_reply(true, "200 OK", "{}", Ok(refused))),
        "Model finished without image: SAFETY"
    );
    assert_eq!(
        image_err(interpret_generate_reply(true, "200 OK", "{}", Ok(GeminiResponse { candidates: vec![] }))),
        "Model finished without image: Unknown reason"
    );
}
