use assistant_mcp::Config;
use assistant_mcp::PineconeAssistantRouter;
use assistant_mcp::PromptError;
use assistant_mcp::ResourceError;
use assistant_mcp::u64_to_string;

fn test_router() -> PineconeAssistantRouter {
    PineconeAssistantRouter::new(Config::new("test-api-key".to_string(), None, None))
}

#[test]
fn config_applies_defaults_for_absent_values() {
    let config = Config::new("test-api-key".to_string(), None, None);
    assert_eq!(config.pinecone_api_key, "test-api-key");
    assert_eq!(config.pinecone_assistant_host, "https://prod-1-data.ke.pinecone.io");
    assert_eq!(config.log_level, "info");
}

#[test]
fn config_keeps_given_values() {
    let config = Config::new(
        "k".to_string(),
        Some("https://example.test".to_string()),
        Some("debug".to_string()),
    );
    assert_eq!(config.pinecone_assistant_host, "https://example.test");
    assert_eq!(config.log_level, "debug");
}

#[test]
fn router_takes_credential_and_host_from_config() {
    let config = Config::new(
        "k".to_string(),
        Some("https://example.test".to_string()),
        None,
    );
    let router = PineconeAssistantRouter::new(config);
    assert_eq!(router.client.api_key, "k");
    assert_eq!(router.client.base_url, "https://example.test");
}

#[test]
fn server_name_and_instructions_are_static() {
    let router = test_router();
    assert_eq!(router.name(), "pinecone-assistant");
    assert_eq!(
        router.instructions(),
        "This server connects to an existing Pinecone Assistant,a RAG system for retrieving \
         relevant document snippets. Use the assistant_context tool to access contextual \
         information from its knowledge base"
    );
}

#[test]
fn capabilities_declare_tools_only() {
    let router = test_router();
    let caps = router.capabilities();
    assert!(caps.tools);
    assert!(!caps.resources);
    assert!(!caps.prompts);
}

#[test]
fn the_one_tool_is_advertised_with_its_schema() {
    let router = test_router();
    let tools = router.list_tools();
    assert_eq!(tools.len(), 1);
    assert_eq!(tools[0].name, "assistant_context");
    assert!(tools[0].description.starts_with(
        "Retrieves relevant document snippets from your Pinecone Assistant knowledge base."
    ));
    assert_eq!(
        tools[0].input_schema,
        "{\"type\":\"object\",\"properties\":{\"assistant_name\":{\"type\":\"string\",\
         \"description\":\"Name of an existing Pinecone assistant\"},\"query\":{\"type\":\
         \"string\",\"description\":\"The query to retrieve context for.\"},\"top_k\":\
         {\"type\":\"integer\",\"description\":\"The number of context snippets to retrieve. \
         Defaults to 15.\"}},\"required\":[\"assistant_name\",\"query\"]}"
    );
}

#[test]
fn advertised_schema_is_valid_json() {
    let router = test_router();
    let tools = router.list_tools();
    let schema: serde_json::Value =
        serde_json::from_str(&tools[0].input_schema).expect("schema must parse as JSON");
    assert_eq!(schema["type"], "object");
    assert_eq!(schema["required"][0], "assistant_name");
    assert_eq!(schema["required"][1], "query");
    assert_eq!(schema["properties"]["top_k"]["type"], "integer");
}

#[test]
fn resource_and_prompt_surfaces_are_empty() {
    let router = test_router();
    assert_eq!(router.list_resources().len(), 0);
    assert_eq!(router.list_prompts().len(), 0);
}

#[test]
fn reading_any_resource_fails_not_found() {
    let router = test_router();
    for uri in ["", "file:///x", "anything"] {
        match router.read_resource(uri) {
            Err(ResourceError::NotFound(m)) => assert_eq!(m, "No resources available"),
            _ => panic!("expected a not-found failure"),
        }
    }
}

#[test]
fn fetching_any_prompt_fails_not_found_naming_it() {
    let router = test_router();
    match router.get_prompt("greeting") {
        Err(PromptError::NotFound(m)) => assert_eq!(m, "Prompt greeting not found"),
        _ => panic!("expected a not-found failure"),
    }
    match router.get_prompt("") {
        Err(PromptError::NotFound(m)) => assert_eq!(m, "Prompt  not found"),
        _ => panic!("expected a not-found failure"),
    }
}

#[test]
fn decimal_rendering_is_exact() {
    assert_eq!(u64_to_string(0), "0");
    assert_eq!(u64_to_string(7), "7");
    assert_eq!(u64_to_string(10), "10");
    assert_eq!(u64_to_string(404), "404");
    assert_eq!(u64_to_string(65535), "65535");
    assert_eq!(u64_to_string(u64::MAX), "18446744073709551615");
}
