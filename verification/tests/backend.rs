use assistant_mcp::ArgValue;
use assistant_mcp::AssistantContext;
use assistant_mcp::BackendReply;
use assistant_mcp::CallArguments;
use assistant_mcp::Config;
use assistant_mcp::Content;
use assistant_mcp::PineconeAssistantRouter;
use assistant_mcp::PineconeClient;
use assistant_mcp::PineconeError;
use assistant_mcp::ToolError;

fn test_client() -> PineconeClient {
    PineconeClient::new(
        "test-api-key".to_string(),
        "https://prod-1-data.ke.pinecone.io".to_string(),
    )
}

fn test_router() -> PineconeAssistantRouter {
    PineconeAssistantRouter::new(Config::new("test-api-key".to_string(), None, None))
}

fn dispatched_call(router: &PineconeAssistantRouter) -> assistant_mcp::ContextCall {
    let mut args = CallArguments::new();
    args.push(
        "assistant_name".to_string(),
        ArgValue::Text("docs".to_string()),
    );
    args.push("query".to_string(), ArgValue::Text("refund policy".to_string()));
    router
        .call_tool("assistant_context", &args)
        .expect("expected a dispatched backend call")
}

#[test]
fn request_url_names_the_assistant() {
    let client = test_client();
    let request = AssistantContext { query: "test query".to_string(), top_k: None };
    let plan = client.assistant_context_request("test-assistant", &request);
    assert_eq!(
        plan.url,
        "https://prod-1-data.ke.pinecone.io/assistant/chat/test-assistant/context"
    );
}

#[test]
fn request_headers_carry_credential_and_pinned_version() {
    let client = test_client();
    let request = AssistantContext { query: "test query".to_string(), top_k: None };
    let plan = client.assistant_context_request("test-assistant", &request);
    assert_eq!(plan.headers.len(), 4);
    assert_eq!(plan.headers[0], ("Api-Key".to_string(), "test-api-key".to_string()));
    assert_eq!(
        plan.headers[1],
        ("accept".to_string(), "application/json".to_string())
    );
    assert_eq!(
        plan.headers[2],
        ("Content-Type".to_string(), "application/json".to_string())
    );
    assert_eq!(
        plan.headers[3],
        ("X-Pinecone-API-Version".to_string(), "2025-04".to_string())
    );
}

#[test]
fn request_body_omits_absent_top_k() {
    let client = test_client();
    let request = AssistantContext { query: "refund policy".to_string(), top_k: None };
    let plan = client.assistant_context_request("docs", &request);
    assert_eq!(plan.body, "{\"query\":\"refund policy\"}");
}

#[test]
fn request_body_includes_present_top_k_unchanged() {
    let client = test_client();
    let request = AssistantContext { query: "refund policy".to_string(), top_k: Some(15) };
    let plan = client.assistant_context_request("docs", &request);
    assert_eq!(plan.body, "{\"query\":\"refund policy\",\"top_k\":15}");
}

#[test]
fn request_body_escapes_the_query() {
    let client = test_client();
    let request = AssistantContext { query: "say \"hi\"\n".to_string(), top_k: None };
    let plan = client.assistant_context_request("docs", &request);
    assert_eq!(plan.body, "{\"query\":\"say \\\"hi\\\"\\n\"}");
}

#[test]
fn success_reply_decodes_snippets_in_order() {
    let client = test_client();
    let reply = BackendReply::Http {
        status: 200,
        body: "{\"snippets\": [{\"text\": \"snippet 1\"}, {\"text\": \"snippet 2\"}], \"usage\": {\"total_tokens\": 100}}".to_string(),
    };
    let response = client
        .assistant_context_result("test-assistant", reply)
        .expect("expected a decoded response");
    assert_eq!(response.snippets.len(), 2);
    assert_eq!(response.snippets[0], "{\"text\":\"snippet 1\"}");
    assert_eq!(response.snippets[1], "{\"text\":\"snippet 2\"}");
    assert_eq!(response.usage, "{\"total_tokens\":100}");
}

#[test]
fn non_success_reply_carries_status_and_body() {
    let client = test_client();
    let reply = BackendReply::Http {
        status: 401,
        body: "{\"error\": \"Unauthorized\"}".to_string(),
    };
    match client.assistant_context_result("test-assistant", reply) {
        Err(PineconeError::Api { status, message }) => {
            assert_eq!(status, 401);
            assert_eq!(message, "{\"error\": \"Unauthorized\"}");
        }
        _ => panic!("expected a backend API failure"),
    }
}

#[test]
fn not_found_reply_names_the_assistant() {
    let client = test_client();
    let reply = BackendReply::Http { status: 404, body: "".to_string() };
    match client.assistant_context_result("test-assistant", reply) {
        Err(PineconeError::NotFound { resource }) => {
            assert_eq!(resource, "assistant \"test-assistant\"");
        }
        _ => panic!("expected a not-found failure"),
    }
}

#[test]
fn error_messages_render_each_failure_kind() {
    let api = PineconeError::Api { status: 500, message: "boom".to_string() };
    assert_eq!(api.message(), "API error: 500 - boom");
    let not_found = PineconeError::NotFound { resource: "assistant \"docs\"".to_string() };
    assert_eq!(not_found.message(), "API error: assistant \"docs\" not found");
    let request = PineconeError::Request { message: "connection refused".to_string() };
    assert_eq!(request.message(), "HTTP request error: connection refused");
    let json = PineconeError::Json { message: "expected value".to_string() };
    assert_eq!(json.message(), "JSON deserialization error: expected value");
}

#[test]
fn completed_call_yields_one_content_item_per_snippet() {
    let router = test_router();
    let call = dispatched_call(&router);
    let reply = BackendReply::Http {
        status: 200,
        body: "{\"snippets\":[{\"text\":\"a\"},{\"text\":\"b\"}],\"usage\":{}}".to_string(),
    };
    let items = router
        .complete_call(&call, reply)
        .expect("expected content items");
    assert_eq!(items.len(), 2);
    let Content::Text(first) = &items[0];
    assert_eq!(first, "{\"text\":\"a\"}");
    let Content::Text(second) = &items[1];
    assert_eq!(second, "{\"text\":\"b\"}");
}

#[test]
fn completed_call_serializes_snippets_of_any_shape() {
    let router = test_router();
    let call = dispatched_call(&router);
    let reply = BackendReply::Http {
        status: 200,
        body: "{\"snippets\":[1,true,\"x\",null],\"usage\":null}".to_string(),
    };
    let items = router
        .complete_call(&call, reply)
        .expect("expected content items");
    assert_eq!(items.len(), 4);
    let texts: Vec<&String> = items
        .iter()
        .map(|item| {
            let Content::Text(t) = item;
            t
        })
        .collect();
    assert_eq!(texts[0], "1");
    assert_eq!(texts[1], "true");
    assert_eq!(texts[2], "\"x\"");
    assert_eq!(texts[3], "null");
}

#[test]
fn completed_call_maps_status_404_to_a_not_found_message() {
    let router = test_router();
    let call = dispatched_call(&router);
    let reply = BackendReply::Http { status: 404, body: "gone".to_string() };
    match router.complete_call(&call, reply) {
        Err(ToolError::ExecutionError(m)) => {
            assert_eq!(m, "API error: assistant \"docs\" not found");
        }
        _ => panic!("expected a tool-execution failure"),
    }
}

#[test]
fn completed_call_maps_other_statuses_to_status_and_body() {
    let router = test_router();
    for status in [400u16, 401, 500] {
        let call = dispatched_call(&router);
        let reply = BackendReply::Http {
            status,
            body: "{\"error\": \"Unauthorized\"}".to_string(),
        };
        match router.complete_call(&call, reply) {
            Err(ToolError::ExecutionError(m)) => {
                assert_eq!(
                    m,
                    format!("API error: {} - {{\"error\": \"Unauthorized\"}}", status)
                );
            }
            _ => panic!("expected a tool-execution failure"),
        }
    }
}

#[test]
fn completed_call_maps_transport_failures() {
    let router = test_router();
    let call = dispatched_call(&router);
    let reply = BackendReply::Transport { message: "connection refused".to_string() };
    match router.complete_call(&call, reply) {
        Err(ToolError::ExecutionError(m)) => {
            assert_eq!(m, "HTTP request error: connection refused");
        }
        _ => panic!("expected a tool-execution failure"),
    }
}

#[test]
fn malformed_success_body_is_a_decode_failure() {
    let router = test_router();

    for body in ["not json", "{\"snippets\":{},\"usage\":{}}", "{\"snippets\":[]}", "[]"] {
        let call = dispatched_call(&router);
        let reply = BackendReply::Http { status: 200, body: body.to_string() };
        match router.complete_call(&call, reply) {
            Err(ToolError::ExecutionError(m)) => {
                assert!(
                    m.starts_with("JSON deserialization error: "),
                    "unexpected message: {}",
                    m
                );
            }
            _ => panic!("expected a tool-execution failure"),
        }
    }
}

#[test]
fn empty_snippet_array_yields_no_content() {
    let router = test_router();
    let call = dispatched_call(&router);
    let reply = BackendReply::Http {
        status: 200,
        body: "{\"snippets\":[],\"usage\":{}}".to_string(),
    };
    let items = router
        .complete_call(&call, reply)
        .expect("expected content items");
    assert_eq!(items.len(), 0);
}
