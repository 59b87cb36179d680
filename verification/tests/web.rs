use seedframe::codegen::config::{
    config_text, instance_name, instance_name_of, invalid_json, unwrap_arguments,
};
use seedframe::document::Document;
use seedframe::error::EmbedderError;
use seedframe::json::Json;
use seedframe::loader::web::{config_of, scraped_data, scraped_document, Config};
use seedframe::providers::chat::{Endpoint, ModelConfig};
use seedframe::settings::{backend_settings, ConfigError};
use seedframe::providers::embedding::{
    embedding_endpoint, embedding_refused, embedding_request, EmbeddingBackend, EmbeddingConfig,
};

#[test]
fn a_selector_keeps_the_elements_it_selects() {
    let page = r#"<html><div class="content">Test</div><p>no</p><div class="content">More</div></html>"#;
    let data = scraped_data(page.to_string(), Some("div.content"));
    assert_eq!(data, "<div class=\"content\">Test</div>\n<div class=\"content\">More</div>");
    assert!(data.contains("Test"));
    assert!(!data.contains("html"));
    assert_eq!(scraped_data(page.to_string(), Some("table")), "");
}

#[test]
fn a_page_is_kept_whole_without_a_valid_selector() {
    let page = "<html><div class=\"content\">Test</div></html>";
    assert_eq!(scraped_data(page.to_string(), None), page);
    assert_eq!(scraped_data(page.to_string(), Some("div..")), page);
    assert_eq!(scraped_data("Test Content".to_string(), None), "Test Content");
}

#[test]
fn a_visit_is_named_after_the_page_and_the_time() {
    assert_eq!(
        scraped_document("https://example.com", "1700000000000", "x".to_string()),
        Document::new("https://example.com-1700000000000".to_string(), "x".to_string())
    );
}

#[test]
fn a_page_is_visited_once_without_an_interval() {
    let config = |interval| Config { url: "https://example.com".to_string(), interval, selector: None };
    assert!(config(None).run_once());
    assert!(!config(Some(60)).run_once());
    assert!(!config(Some(0)).run_once());
}

#[test]
fn a_configuration_is_handed_on_as_serde_json_writes_it() {
    assert_eq!(config_text("{ \"model\": \"gpt-4\",\n \"a\": [1, 2] }"), Ok("{\"a\":[1,2],\"model\":\"gpt-4\"}".to_string()));
    assert_eq!(config_text("null"), Ok("null".to_string()));
    match config_text("{model: gpt-4}") {
        Err(note) => assert!(note.starts_with("Invalid JSON: "), "{note}"),
        Ok(text) => panic!("{text}"),
    }
}

#[test]
fn the_instance_of_a_loader_is_named_in_capitals() {
    assert_eq!(instance_name("MyLoader"), "__MYLOADER_INSTANCE");
    assert_eq!(instance_name("straße"), "__STRASSE_INSTANCE");
    assert_eq!(instance_name(""), "___INSTANCE");
}

#[test]
fn arguments_lose_their_quotes_and_backslashes() {
    assert_eq!(unwrap_arguments("\"{\\\"a\\\":7,\\\"b\\\":8}\""), Some("{\"a\":7,\"b\":8}".to_string()));
    assert_eq!(unwrap_arguments("\"\""), Some(String::new()));
    assert_eq!(unwrap_arguments("\\\"\\\\x\\\""), Some("x".to_string()));
    assert_eq!(unwrap_arguments("\""), None);
    assert_eq!(unwrap_arguments(""), None);
    assert_eq!(unwrap_arguments("\\\\\\"), None);
    assert_eq!(unwrap_arguments("éaü"), Some("a".to_string()));
}

#[test]
fn embedding_settings_come_from_the_configuration_or_the_backend() {
    assert_eq!(
        embedding_endpoint(EmbeddingBackend::OpenAI, None),
        Some(Endpoint {
            api_key_var: "OPENAI_EMBEDDING_API_KEY".to_string(),
            api_url: "https://api.openai.com/v1/embeddings".to_string(),
            model: "text-embedding-3-small".to_string(),
        })
    );
    assert_eq!(embedding_endpoint(EmbeddingBackend::VoyageAI, None), None);
    let silent = EmbeddingConfig { api_key_var: Some("K".to_string()), api_url: None, model: None };
    assert_eq!(embedding_endpoint(EmbeddingBackend::VoyageAI, Some(silent)), None);
    let config = EmbeddingConfig { api_key_var: None, api_url: Some("u".to_string()), model: Some("voyage-3-lite".to_string()) };
    assert_eq!(
        embedding_endpoint(EmbeddingBackend::VoyageAI, Some(config)),
        Some(Endpoint {
            api_key_var: "VOYAGEAI_API_KEY".to_string(),
            api_url: "u".to_string(),
            model: "voyage-3-lite".to_string(),
        })
    );
}

#[test]
fn an_embedding_is_asked_for_by_text_and_model() {
    assert_eq!(
        embedding_request("test", "text-embedding-3-small"),
        Json::Object(vec![
            ("input".to_string(), Json::Text("test".to_string())),
            ("model".to_string(), Json::Text("text-embedding-3-small".to_string())),
        ])
    );
    assert_eq!(embedding_refused(Some("quota".to_string())), EmbedderError::ProviderError("quota".to_string()));
    assert_eq!(embedding_refused(None), EmbedderError::ProviderError("Unknown error".to_string()));
}

#[test]
fn test_config_deserialization() {
    let json = r#"{
            "url": "https://example.com",
            "interval": 60,
            "selector": "div.content"
        }"#;

    let config = Config::from_json(json);
    assert!(config.is_ok());
    let config = config.unwrap();
    assert_eq!(config.url, "https://example.com");
    assert_eq!(config.interval, Some(60));
    assert_eq!(config.selector, Some("div.content".to_string()));
}

#[test]
fn a_scraper_needs_its_address_and_knows_no_other_member() {
    assert_eq!(
        Config::from_json(r#"{"url": "invalid://url", "interval": null}"#),
        Ok(Config { url: "invalid://url".to_string(), interval: None, selector: None })
    );
    assert_eq!(Config::from_json(r#"{"interval": 5}"#), Err(ConfigError::MissingField("url".to_string())));
    assert_eq!(Config::from_json(r#"{"url": null}"#), Err(ConfigError::WrongType("url".to_string())));
    assert_eq!(
        Config::from_json(r#"{"url": "u", "interval": -5}"#),
        Err(ConfigError::WrongType("interval".to_string()))
    );
    assert_eq!(
        Config::from_json(r#"{"url": "u", "interval": 1.5}"#),
        Err(ConfigError::WrongType("interval".to_string()))
    );
    assert_eq!(
        Config::from_json(r#"{"url": "u", "selector": 3}"#),
        Err(ConfigError::WrongType("selector".to_string()))
    );
    assert_eq!(
        Config::from_json(r#"{"url": "u", "depth": 3}"#),
        Err(ConfigError::UnknownField("depth".to_string()))
    );
    assert_eq!(Config::from_json("[]"), Err(ConfigError::NotAnObject));
    assert_eq!(Config::from_json("{url: u}"), Err(ConfigError::NotJson));
}

#[test]
fn a_backend_is_configured_by_three_optional_texts() {
    assert_eq!(
        ModelConfig::from_json(r#"{"model": "gpt-4", "api_url": null}"#),
        Ok(ModelConfig { api_key: None, api_url: None, model: Some("gpt-4".to_string()) })
    );
    assert_eq!(ModelConfig::from_json("{}"), Ok(ModelConfig { api_key: None, api_url: None, model: None }));
    assert_eq!(
        ModelConfig::from_json(r#"{"api_key": "K", "api_url": "U", "model": "M"}"#),
        Ok(ModelConfig { api_key: Some("K".to_string()), api_url: Some("U".to_string()), model: Some("M".to_string()) })
    );
    assert_eq!(
        ModelConfig::from_json(r#"{"api_key_var": "K"}"#),
        Err(ConfigError::UnknownField("api_key_var".to_string()))
    );
    assert_eq!(ModelConfig::from_json(r#"{"model": 4}"#), Err(ConfigError::WrongType("model".to_string())));
    assert_eq!(ModelConfig::from_json("nonsense"), Err(ConfigError::NotJson));
    assert_eq!(ModelConfig::from_json("\"text\""), Err(ConfigError::NotAnObject));
    assert_eq!(
        EmbeddingConfig::from_json(r#"{"api_key_var": "K", "model": "voyage-3-lite"}"#, EmbeddingBackend::VoyageAI),
        Ok(EmbeddingConfig { api_key_var: Some("K".to_string()), api_url: None, model: Some("voyage-3-lite".to_string()) })
    );
    assert_eq!(
        EmbeddingConfig::from_json(r#"{"api_key_var": "K"}"#, EmbeddingBackend::OpenAI),
        Err(ConfigError::UnknownField("api_key_var".to_string()))
    );
    assert_eq!(
        EmbeddingConfig::from_json(r#"{"api_key": "K"}"#, EmbeddingBackend::OpenAI),
        Ok(EmbeddingConfig { api_key_var: Some("K".to_string()), api_url: None, model: None })
    );
    assert_eq!(backend_settings(&Json::Null, "api_key"), Err(ConfigError::NotAnObject));
}

#[test]
fn json_texts_are_read_as_serde_json_reads_them() {
    assert_eq!(Json::parse("nonsense"), None);
    assert_eq!(Json::parse(""), None);
    assert_eq!(
        Json::parse(r#"{"b": [1, -2, 2.5, "x", null, true], "a": {}}"#),
        Some(Json::Object(vec![
            ("a".to_string(), Json::Object(vec![])),
            (
                "b".to_string(),
                Json::Array(vec![
                    Json::Number(seedframe::json::Number::PosInt(1)),
                    Json::Number(seedframe::json::Number::NegInt(-2)),
                    Json::Number(seedframe::json::Number::Float("2.5".to_string())),
                    Json::Text("x".to_string()),
                    Json::Null,
                    Json::Bool(true),
                ])
            ),
        ]))
    );
    for text in ["null", "[1,2]", "{\"a\":{\"b\":[1.5,\"q\"]}}", "18446744073709551616", "-0"] {
        assert_eq!(Json::parse(text).unwrap().render(), serde_json::from_str::<serde_json::Value>(text).unwrap().to_string());
    }
}

#[test]
fn a_configuration_that_is_no_json_is_refused_with_the_complaint_of_the_parser() {
    for text in ["{model: gpt-4}", "", "[1,", "{\"a\":1}x", "nul"] {
        let complaint = serde_json::from_str::<serde_json::Value>(text).unwrap_err().to_string();
        assert_eq!(config_text(text), Err(format!("Invalid JSON: {complaint}")), "{text:?}");
        assert_eq!(Json::from_text(text), Err(complaint));
    }
    assert_eq!(invalid_json("expected value"), "Invalid JSON: expected value");
    assert_eq!(invalid_json(""), "Invalid JSON: ");
    assert_eq!(Json::from_text("[true]"), Ok(Json::Array(vec![Json::Bool(true)])));
}

#[test]
fn an_instance_is_named_from_the_capitals_as_they_are_given() {
    assert_eq!(instance_name_of("MYLOADER"), "__MYLOADER_INSTANCE");
    assert_eq!(instance_name_of("lower"), "__lower_INSTANCE");
    assert_eq!(instance_name_of(""), "___INSTANCE");
}

#[test]
fn a_scraper_is_configured_by_a_value() {
    let value = Json::Object(vec![
        ("selector".to_string(), Json::Null),
        ("url".to_string(), Json::Text("u".to_string())),
        ("interval".to_string(), Json::Number(seedframe::json::Number::PosInt(7))),
    ]);
    assert_eq!(config_of(&value), Ok(Config { url: "u".to_string(), interval: Some(7), selector: None }));
    assert_eq!(config_of(&Json::Array(vec![])), Err(ConfigError::NotAnObject));
    assert_eq!(config_of(&Json::Object(vec![])), Err(ConfigError::MissingField("url".to_string())));
}
