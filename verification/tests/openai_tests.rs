use image_mcp::cli::Flavor;
use image_mcp::domain::config::{AppConfig, OutputFormat, TransportMode};
use image_mcp::domain::errors::DomainError;
use image_mcp::domain::traits::GenerateParams;
use image_mcp::infrastructure::openai::client::{
    image_outputs, interpret_edit_reply, model_name, EditImageSource, EditReplyItem, OpenAiImage, OpenAiImageClient,
};
use image_mcp::infrastructure::openai::utils::{ImageModel, ImageQuality, ImageSize, ImageStyle, OpenAiUtils};

fn config(flavor: Flavor, image_model: &str, base_url: &str) -> AppConfig {
    AppConfig {
        api_key: "sk".to_string(),
        base_url: base_url.to_string(),
        image_model: image_model.to_string(),
        transport_mode: TransportMode::Stdio,
        host: "0.0.0.0".to_string(),
        flavor,
        output_format: OutputFormat::Url,
        output_dir: "./outputs".to_string(),
    }
}

fn image_err<T: std::fmt::Debug>(r: Result<T, DomainError>) -> String {
    match r {
        Err(DomainError::Image(m)) => m,
        other => panic!("expected an image error, got {:?}", other),
    }
}

fn other_name(m: ImageModel) -> String {
    match m {
        ImageModel::Other(n) => n,
        other => panic!("{:?}", other),
    }
}

#[test]
fn sizes() {
    assert_eq!(OpenAiUtils::parse_size(Some("256")), ImageSize::S256x256);
    assert_eq!(OpenAiUtils::parse_size(Some("512")), ImageSize::S512x512);
    assert_eq!(OpenAiUtils::parse_size(Some("1024")), ImageSize::S1024x1024);
    assert_eq!(OpenAiUtils::parse_size(Some("1792x1024")), ImageSize::S1792x1024);
    assert_eq!(OpenAiUtils::parse_size(Some("1024x1792")), ImageSize::S1024x1792);
    assert_eq!(OpenAiUtils::parse_size(Some("1536x1024")), ImageSize::S1536x1024);
    assert_eq!(OpenAiUtils::parse_size(Some("1024x1536")), ImageSize::S1024x1536);
    assert_eq!(OpenAiUtils::parse_size(Some("1024x1024")), ImageSize::S1024x1024);
    assert_eq!(OpenAiUtils::parse_size(Some("huge")), ImageSize::S1024x1024);
    assert_eq!(OpenAiUtils::parse_size(None), ImageSize::S1024x1024);
}

#[test]
fn models_qualities_styles() {
    let c = config(Flavor::OpenAiGen, "dall-e-3", "https://api.openai.com/v1");
    assert_eq!(other_name(OpenAiUtils::parse_model(Some("dall-e"), &c)), "dall-e-3");
    assert_eq!(other_name(OpenAiUtils::parse_model(Some("gpt-image-1"), &c)), "gpt-image-1");
    assert_eq!(other_name(OpenAiUtils::parse_model(Some("gpt-image-1.5"), &c)), "gpt-image-1.5");
    assert_eq!(other_name(OpenAiUtils::parse_model(None, &c)), "dall-e-3");
    assert_eq!(OpenAiUtils::parse_quality(Some("hd")), Some(ImageQuality::HD));
    assert_eq!(OpenAiUtils::parse_quality(Some("standard")), Some(ImageQuality::Standard));
    assert_eq!(OpenAiUtils::parse_quality(Some("HD")), None);
    assert_eq!(OpenAiUtils::parse_quality(None), None);
    assert_eq!(OpenAiUtils::parse_style(Some("vivid")), Some(ImageStyle::Vivid));
    assert_eq!(OpenAiUtils::parse_style(Some("natural")), Some(ImageStyle::Natural));
    assert_eq!(OpenAiUtils::parse_style(Some("calm")), None);
    assert_eq!(model_name(&ImageModel::DallE2), "dall-e-2");
    assert_eq!(model_name(&ImageModel::DallE3), "dall-e-3");
    assert_eq!(model_name(&ImageModel::GptImage1), "gpt-image-1");
}

#[test]
fn generation_sizes_by_flavor() {
    let nano = OpenAiImageClient::new(config(Flavor::NanoBanana, "nano-banana", "https://proxy.example/v1"));
    let p = GenerateParams::new("x".to_string());
    assert_eq!(nano.generation_size(&p), ImageSize::S1024x1024);
    assert_eq!(nano.generation_size(&p.clone().with_ratio("16:9".to_string())), ImageSize::S1792x1024);
    assert_eq!(nano.generation_size(&p.clone().with_ratio("21:9".to_string())), ImageSize::S1792x1024);
    assert_eq!(nano.generation_size(&p.clone().with_ratio("9:16".to_string())), ImageSize::S1024x1792);
    assert_eq!(nano.generation_size(&p.clone().with_ratio("4:3".to_string())), ImageSize::S1024x1024);
    assert_eq!(nano.generation_size(&p.clone().with_size("256".to_string())), ImageSize::S1024x1024);
    let std_client = OpenAiImageClient::new(config(Flavor::Standard, "dall-e-3", "https://api.openai.com/v1"));
    assert_eq!(std_client.generation_size(&p.clone().with_size("256".to_string())), ImageSize::S256x256);
    assert_eq!(std_client.generation_size(&p.clone().with_ratio("16:9".to_string())), ImageSize::S1024x1024);
}

#[test]
fn generation_requests() {
    let client = OpenAiImageClient::new(config(Flavor::OpenAiGen, "dall-e-3", "https://api.openai.com/v1"));
    let p = GenerateParams::new("a wolf".to_string())
        .with_model("dall-e".to_string())
        .with_quality("hd".to_string())
        .with_style("natural".to_string())
        .with_seed(-42);
    let r = client.generation_request(p, ImageSize::S1792x1024);
    assert_eq!(r.prompt, "a wolf");
    assert_eq!(other_name(r.model), "dall-e-3");
    assert_eq!(r.n, 1);
    assert_eq!(r.size, ImageSize::S1792x1024);
    assert_eq!(r.quality, Some(ImageQuality::HD));
    assert_eq!(r.style, Some(ImageStyle::Natural));
    assert_eq!(r.user, Some("seed:-42".to_string()));
    let r = client.generation_request(GenerateParams::new("p".to_string()).with_n(3), ImageSize::S256x256);
    assert_eq!(other_name(r.model), "dall-e-3");
    assert_eq!(r.n, 3);
    assert_eq!(r.quality, None);
    assert_eq!(r.style, None);
    assert_eq!(r.user, None);
}

#[test]
fn listed_models() {
    let client = OpenAiImageClient::new(config(Flavor::Standard, "x", "https://api.openai.com/v1"));
    assert_eq!(client.list_models(), vec!["gpt-image-1", "gpt-image-1.5", "gpt-image-1-mini"]);
}

#[test]
fn generated_images() {
    let images = vec![
        OpenAiImage::Url("https://cdn.example/1.png".to_string()),
        OpenAiImage::B64Json("QUJD".to_string()),
    ];
    assert_eq!(image_outputs(&images), vec!["https://cdn.example/1.png", "data:image/png;base64,QUJD"]);
}

#[test]
fn edit_sources() {
    let client = OpenAiImageClient::new(config(Flavor::Standard, "gpt-image-1", "https://api.openai.com/v1"));
    match client.edit_source(Some("data:image/png;base64,aGVsbG8=".to_string())).unwrap() {
        EditImageSource::Bytes(b) => assert_eq!(b, b"hello".to_vec()),
        other => panic!("{:?}", other),
    }
    match client.edit_source(Some("https://cdn.example/1.png".to_string())).unwrap() {
        EditImageSource::Fetch(u) => assert_eq!(u, "https://cdn.example/1.png"),
        other => panic!("{:?}", other),
    }
    assert_eq!(image_err(client.edit_source(None)), "Missing image");
    assert_eq!(image_err(client.edit_source(Some("data:image/png;base64".to_string()))), "Invalid data URL");
    let bad = image_err(client.edit_source(Some("data:x,!!!!".to_string())));
    assert!(!bad.is_empty());
}

#[test]
fn edit_models() {
    let client = OpenAiImageClient::new(config(Flavor::Standard, "gpt-image-1", "https://api.openai.com/v1/"));
    assert_eq!(client.edit_model_name(None).unwrap(), "gpt-image-1");
    assert_eq!(client.edit_model_name(Some("gpt-image-1.5")).unwrap(), "gpt-image-1.5");
    assert_eq!(
        image_err(client.edit_model_name(Some("dall-e"))),
        "Model 'dall-e-3' does not support semantic image editing. Use 'gpt-image-1' or 'gpt-image-1.5' for edits."
    );
    assert_eq!(client.edits_url(), "https://api.openai.com/v1/images/edits");
}

#[test]
fn edit_replies() {
    let items = vec![
        EditReplyItem { b64_json: Some("QUJD".to_string()), url: Some("ignored".to_string()) },
        EditReplyItem { b64_json: None, url: Some("https://cdn.example/2.png".to_string()) },
        EditReplyItem { b64_json: None, url: None },
    ];
    assert_eq!(
        interpret_edit_reply(true, "200 OK", "{}", Ok(Some(items))).unwrap(),
        vec!["data:image/png;base64,QUJD", "https://cdn.example/2.png"]
    );
    assert_eq!(interpret_edit_reply(true, "200 OK", "{}", Ok(None)).unwrap(), Vec::<String>::new());
    assert_eq!(
        image_err(interpret_edit_reply(false, "401 Unauthorized", "no key", Ok(None))),
        "OpenAI Provider Error (401 Unauthorized): no key"
    );
    assert_eq!(
        image_err(interpret_edit_reply(true, "200 OK", "<html>", Err("expected value at line 1 column 1".to_string()))),
        "error decoding response body: expected value at line 1 column 1"
    );
}
