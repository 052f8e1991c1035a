//! The protocol-facing router: it advertises the single tool, validates
//! and decodes call arguments, derives the backend call that answers a
//! valid invocation, and maps the backend's outcome into protocol-level
//! content items and errors.
//!
//! The router is stateless across calls; a tool call moves through
//! exactly two verified steps. `call_tool` takes the tool name and the
//! argument bag to either the backend call that must be performed or a
//! terminal protocol error; `complete_call` takes whatever came back
//! from that exchange to the content items or a terminal protocol error.

use vstd::prelude::*;

use crate::args::CallArguments;
use crate::args::spec_str_arg;
use crate::args::spec_uint_arg;
use crate::config::Config;
use crate::pinecone::AssistantContext;
use crate::pinecone::BackendReply;
use crate::pinecone::PineconeClient;
use crate::pinecone::PineconeError;
use crate::pinecone::api_error_text;
use crate::pinecone::decoded_context;
use crate::pinecone::not_found_error_text;
use crate::pinecone::not_found_resource_text;
use crate::pinecone::request_error_text;
use crate::text::lemma_concat_starts_with;
use crate::text::starts_with;

verus! {

/// A named, schema-described operation a protocol client may invoke.
/// The schema is carried as JSON text.
pub struct Tool {
    pub name: String,
    pub description: String,
    pub input_schema: String,
}

/// One unit of returned data delivered to the protocol client as part of
/// a tool call's result: here, always text.
#[derive(Debug)]
pub enum Content {
    Text(String),
}

/// A terminal protocol-level failure of a tool call.
#[derive(Debug)]
pub enum ToolError {
    /// The requested tool name is not advertised.
    NotFound(String),
    /// A required argument is missing or has the wrong type.
    InvalidParameters(String),
    /// The backend call failed.
    ExecutionError(String),
}

/// A terminal protocol-level failure of a resource read.
#[derive(Debug)]
pub enum ResourceError {
    NotFound(String),
}

/// A terminal protocol-level failure of a prompt fetch.
#[derive(Debug)]
pub enum PromptError {
    NotFound(String),
}

/// Which surfaces this server supports.
pub struct ServerCapabilities {
    pub tools: bool,
    pub resources: bool,
    pub prompts: bool,
}

/// A readable resource; this server advertises none.
pub struct Resource {
    pub uri: String,
    pub name: String,
}

/// A fetchable prompt; this server advertises none.
pub struct Prompt {
    pub name: String,
}

/// A failure raised while handling a dispatched tool call.
#[derive(Debug)]
pub enum RouterError {
    Pinecone(PineconeError),
    InvalidParameters(String),
}

impl RouterError {
    /// Wraps this failure as the protocol-level tool error: a validation
    /// failure keeps its distinct invalid-parameters kind, a backend
    /// failure becomes a tool-execution failure carrying its message.
    pub fn to_tool_error(self) -> (r: ToolError)
        ensures
            self matches RouterError::InvalidParameters(m) ==> r == ToolError::InvalidParameters(
                m,
            ),
            self matches RouterError::Pinecone(e) ==> (r matches ToolError::ExecutionError(m) && m@
                == e.text()),
    {
        match self {
            RouterError::Pinecone(e) => ToolError::ExecutionError(e.message()),
            RouterError::InvalidParameters(message) => ToolError::InvalidParameters(message),
        }
    }
}

/// The name of the single tool this router dispatches.
pub open spec fn tool_assistant_context_text() -> Seq<char> {
    "assistant_context"@
}

/// `call_tool` dispatches this name rather than failing tool-not-found.
pub open spec fn dispatchable(tool_name: Seq<char>) -> bool {
    tool_name == tool_assistant_context_text()
}

/// The advertised description of the single tool.
pub open spec fn tool_description_text() -> Seq<char> {
    "Retrieves relevant document snippets from your Pinecone Assistant knowledge base. Returns an array of text snippets from the most relevant documents. You can use the 'top_k' parameter to control result count (default: 15). Recommended top_k: a few (5-8) for simple/narrow queries, 10-20 for complex/broad topics."@
}

/// The advertised argument schema of the single tool, as JSON text:
/// required string properties `assistant_name` and `query`, optional
/// integer property `top_k`.
pub open spec fn tool_input_schema_text() -> Seq<char> {
    "{\"type\":\"object\",\"properties\":{\"assistant_name\":{\"type\":\"string\",\"description\":\"Name of an existing Pinecone assistant\"},\"query\":{\"type\":\"string\",\"description\":\"The query to retrieve context for.\"},\"top_k\":{\"type\":\"integer\",\"description\":\"The number of context snippets to retrieve. Defaults to 15.\"}},\"required\":[\"assistant_name\",\"query\"]}"@
}

/// The static identifying text of this server.
pub open spec fn server_name_text() -> Seq<char> {
    "pinecone-assistant"@
}

/// The static help text of this server.
pub open spec fn instructions_text() -> Seq<char> {
    "This server connects to an existing Pinecone Assistant,a RAG system for retrieving relevant document snippets. Use the assistant_context tool to access contextual information from its knowledge base"@
}

/// The invalid-parameters message naming the offending field.
pub open spec fn must_be_string_text(field: Seq<char>) -> Seq<char> {
    field + " must be a string"@
}

/// The not-found message naming the requested tool.
pub open spec fn tool_not_found_text(tool_name: Seq<char>) -> Seq<char> {
    "Tool "@ + tool_name + " not found"@
}

/// The not-found message naming the requested prompt.
pub open spec fn prompt_not_found_text(prompt_name: Seq<char>) -> Seq<char> {
    "Prompt "@ + prompt_name + " not found"@
}

/// The `top_k` bound the router forwards: the value bound to `top_k`
/// when it is a non-negative integer in bounds, and nothing otherwise —
/// a malformed `top_k` is treated as absent, never an error.
pub open spec fn spec_top_k(args: CallArguments) -> Option<u32> {
    match spec_uint_arg(args, "top_k"@) {
        Some(v) => if v <= u32::MAX {
            Some(v as u32)
        } else {
            None
        },
        None => None,
    }
}

/// The backend call that answers one valid tool invocation.
pub struct ContextCall {
    pub assistant_name: String,
    pub request: AssistantContext,
}

fn str_eq(a: &str, b: &str) -> (r: bool)
    ensures
        r == (a@ == b@),
{
    let a_string = a.to_owned();
    let b_string = b.to_owned();
    a_string.eq(&b_string)
}

/// The router: the backend client it forwards to, and the immutable
/// collection of advertised tools.
pub struct PineconeAssistantRouter {
    pub client: PineconeClient,
    pub tools: Vec<Tool>,
}

impl PineconeAssistantRouter {
    /// The router's invariant: it advertises exactly the one tool whose
    /// name `call_tool` dispatches.
    pub open spec fn wf(&self) -> bool {
        self.tools@.len() == 1 && self.tools@[0].name@ == tool_assistant_context_text()
    }

    /// Builds the router for `config`: the backend client takes the
    /// credential and base URL, and the one tool is advertised.
    pub fn new(config: Config) -> (r: PineconeAssistantRouter)
        ensures
            r.wf(),
            r.client.api_key == config.pinecone_api_key,
            r.client.base_url == config.pinecone_assistant_host,
            r.tools@.len() == 1,
            r.tools@[0].name@ == tool_assistant_context_text(),
            r.tools@[0].description@ == tool_description_text(),
            r.tools@[0].input_schema@ == tool_input_schema_text(),
    {
        let client = PineconeClient::new(config.pinecone_api_key, config.pinecone_assistant_host);
        let mut tools: Vec<Tool> = Vec::new();
        tools.push(
            Tool {
                name: String::from_str("assistant_context"),
                description: String::from_str(
                    "Retrieves relevant document snippets from your Pinecone Assistant knowledge base. Returns an array of text snippets from the most relevant documents. You can use the 'top_k' parameter to control result count (default: 15). Recommended top_k: a few (5-8) for simple/narrow queries, 10-20 for complex/broad topics.",
                ),
                input_schema: String::from_str(
                    "{\"type\":\"object\",\"properties\":{\"assistant_name\":{\"type\":\"string\",\"description\":\"Name of an existing Pinecone assistant\"},\"query\":{\"type\":\"string\",\"description\":\"The query to retrieve context for.\"},\"top_k\":{\"type\":\"integer\",\"description\":\"The number of context snippets to retrieve. Defaults to 15.\"}},\"required\":[\"assistant_name\",\"query\"]}",
                ),
            },
        );
        PineconeAssistantRouter { client, tools }
    }

    /// The static identifying text of this server.
    pub fn name(&self) -> (r: String)
        ensures
            r@ == server_name_text(),
    {
        String::from_str("pinecone-assistant")
    }

    /// The static help text of this server.
    pub fn instructions(&self) -> (r: String)
        ensures
            r@ == instructions_text(),
    {
        String::from_str(
            "This server connects to an existing Pinecone Assistant,a RAG system for retrieving relevant document snippets. Use the assistant_context tool to access contextual information from its knowledge base",
        )
    }

    /// Tool invocation is supported; resource and prompt invocation are
    /// not.
    pub fn capabilities(&self) -> (r: ServerCapabilities)
        ensures
            r == (ServerCapabilities { tools: true, resources: false, prompts: false }),
    {
        ServerCapabilities { tools: true, resources: false, prompts: false }
    }

    /// The immutable tool-descriptor collection.
    pub fn list_tools(&self) -> (r: Vec<Tool>)
        ensures
            r@ == self.tools@,
    {
        let mut out: Vec<Tool> = Vec::new();
        let mut i: usize = 0;
        while i < self.tools.len()
            invariant
                i <= self.tools@.len(),
                out@.len() == i as int,
                forall|j: int| 0 <= j < i as int ==> out@[j] == self.tools@[j],
            decreases self.tools@.len() - i,
        {
            let t = &self.tools[i];
            out.push(
                Tool {
                    name: t.name.clone(),
                    description: t.description.clone(),
                    input_schema: t.input_schema.clone(),
                },
            );
            i = i + 1;
        }
        proof {
            assert(out@ =~= self.tools@);
        }
        out
    }

    /// Validates the arguments of an `assistant_context` invocation:
    /// `assistant_name` and `query` must be present and strings — absence
    /// or a wrong type is an invalid-parameters failure naming the field
    /// — while `top_k` is read permissively.
    pub fn handle_assistant_context(&self, arguments: &CallArguments) -> (r: Result<
        ContextCall,
        RouterError,
    >)
        ensures
            spec_str_arg(*arguments, "assistant_name"@) is None ==> (r matches Err(
                RouterError::InvalidParameters(m),
            ) && m@ == must_be_string_text("assistant_name"@)),
            spec_str_arg(*arguments, "assistant_name"@) is Some && spec_str_arg(
                *arguments,
                "query"@,
            ) is None ==> (r matches Err(RouterError::InvalidParameters(m)) && m@
                == must_be_string_text("query"@)),
            spec_str_arg(*arguments, "assistant_name"@) is Some && spec_str_arg(
                *arguments,
                "query"@,
            ) is Some ==> (r matches Ok(call) && call.assistant_name@ == spec_str_arg(
                *arguments,
                "assistant_name"@,
            ).unwrap() && call.request.query@ == spec_str_arg(*arguments, "query"@).unwrap()
                && call.request.top_k == spec_top_k(*arguments)),
    {
        let assistant_name_key = String::from_str("assistant_name");
        let assistant_name = match arguments.str_arg(&assistant_name_key) {
            Some(s) => s,
            None => {
                let mut m = String::from_str("assistant_name");
                m.append(" must be a string");
                return Err(RouterError::InvalidParameters(m));
            },
        };
        let query_key = String::from_str("query");
        let query = match arguments.str_arg(&query_key) {
            Some(s) => s,
            None => {
                let mut m = String::from_str("query");
                m.append(" must be a string");
                return Err(RouterError::InvalidParameters(m));
            },
        };
        let top_k_key = String::from_str("top_k");
        let top_k: Option<u32> = match arguments.uint_arg(&top_k_key) {
            Some(v) => if v <= u32::MAX as u64 {
                Some(v as u32)
            } else {
                None
            },
            None => None,
        };
        Ok(ContextCall { assistant_name, request: AssistantContext { query, top_k } })
    }

    /// Dispatches one tool invocation: an unknown tool name is a
    /// terminal not-found failure naming that tool and no backend call
    /// is derived; for the known tool the arguments are validated and
    /// the backend call that answers them is returned.
    pub fn call_tool(&self, tool_name: &str, arguments: &CallArguments) -> (r: Result<
        ContextCall,
        ToolError,
    >)
        ensures
            !dispatchable(tool_name@) ==> (r matches Err(ToolError::NotFound(m)) && m@
                == tool_not_found_text(tool_name@)),
            dispatchable(tool_name@) && spec_str_arg(*arguments, "assistant_name"@) is None ==> (r
                matches Err(ToolError::InvalidParameters(m)) && m@ == must_be_string_text(
                "assistant_name"@,
            )),
            dispatchable(tool_name@) && spec_str_arg(*arguments, "assistant_name"@) is Some
                && spec_str_arg(*arguments, "query"@) is None ==> (r matches Err(
                ToolError::InvalidParameters(m),
            ) && m@ == must_be_string_text("query"@)),
            dispatchable(tool_name@) && spec_str_arg(*arguments, "assistant_name"@) is Some
                && spec_str_arg(*arguments, "query"@) is Some ==> (r matches Ok(call)
                && call.assistant_name@ == spec_str_arg(*arguments, "assistant_name"@).unwrap()
                && call.request.query@ == spec_str_arg(*arguments, "query"@).unwrap()
                && call.request.top_k == spec_top_k(*arguments)),
    {
        if str_eq(tool_name, "assistant_context") {
            match self.handle_assistant_context(arguments) {
                Ok(call) => Ok(call),
                Err(e) => Err(e.to_tool_error()),
            }
        } else {
            let mut m = String::from_str("Tool ");
            m.append(tool_name);
            m.append(" not found");
            Err(ToolError::NotFound(m))
        }
    }

    /// Maps the backend's outcome for a dispatched call into the
    /// protocol result: on success one text content item per snippet, in
    /// order, the usage report discarded; on failure a tool-execution
    /// error carrying the backend failure's message.
    pub fn complete_call(&self, call: &ContextCall, reply: BackendReply) -> (r: Result<
        Vec<Content>,
        ToolError,
    >)
        ensures
            reply matches BackendReply::Transport { message } ==> (r matches Err(
                ToolError::ExecutionError(m),
            ) && m@ == request_error_text(message@)),
            reply matches BackendReply::Http { status, body } ==> {
                if 200 <= status && status < 300 {
                    match decoded_context(body@) {
                        Some(decoded) => r matches Ok(items) && items@.len() == decoded.0.len()
                            && (forall|i: int|
                            0 <= i < decoded.0.len() ==> ((#[trigger] items@[i]) matches
                                Content::Text(t) && t@ == decoded.0[i])),
                        None => r matches Err(ToolError::ExecutionError(m)) && starts_with(
                            m@,
                            "JSON deserialization error: "@,
                        ),
                    }
                } else if status == 404 {
                    r matches Err(ToolError::ExecutionError(m)) && m@ == not_found_error_text(
                        not_found_resource_text(call.assistant_name@),
                    )
                } else {
                    r matches Err(ToolError::ExecutionError(m)) && m@ == api_error_text(
                        status,
                        body@,
                    )
                }
            },
    {
        match self.client.assistant_context_result(call.assistant_name.as_str(), reply) {
            Ok(resp) => Ok(Self::snippets_to_content(&resp.snippets)),
            Err(e) => {
                proof {
                    match &e {
                        PineconeError::Json { message } => lemma_concat_starts_with(
                            "JSON deserialization error: "@,
                            message@,
                        ),
                        _ => {},
                    }
                }
                Err(RouterError::Pinecone(e).to_tool_error())
            },
        }
    }

    fn snippets_to_content(snippets: &Vec<String>) -> (r: Vec<Content>)
        ensures
            r@.len() == snippets@.len(),
            forall|i: int|
                0 <= i < snippets@.len() ==> ((#[trigger] r@[i]) matches Content::Text(t) && t@
                    == snippets@[i]@),
    {
        let mut out: Vec<Content> = Vec::new();
        let mut i: usize = 0;
        while i < snippets.len()
            invariant
                i <= snippets@.len(),
                out@.len() == i as int,
                forall|j: int|
                    0 <= j < i as int ==> ((#[trigger] out@[j]) matches Content::Text(t) && t@
                        == snippets@[j]@),
            decreases snippets@.len() - i,
        {
            out.push(Content::Text(snippets[i].clone()));
            i = i + 1;
        }
        out
    }

    /// This server advertises no resources.
    pub fn list_resources(&self) -> (r: Vec<Resource>)
        ensures
            r@.len() == 0,
    {
        Vec::new()
    }

    /// Reading any resource fails not-found, regardless of the URI.
    pub fn read_resource(&self, _uri: &str) -> (r: Result<String, ResourceError>)
        ensures
            r matches Err(ResourceError::NotFound(m)) && m@ == "No resources available"@,
    {
        Err(ResourceError::NotFound(String::from_str("No resources available")))
    }

    /// This server advertises no prompts.
    pub fn list_prompts(&self) -> (r: Vec<Prompt>)
        ensures
            r@.len() == 0,
    {
        Vec::new()
    }

    /// Fetching any prompt fails not-found, naming the requested prompt.
    pub fn get_prompt(&self, prompt_name: &str) -> (r: Result<String, PromptError>)
        ensures
            r matches Err(PromptError::NotFound(m)) && m@ == prompt_not_found_text(prompt_name@),
    {
        let mut m = String::from_str("Prompt ");
        m.append(prompt_name);
        m.append(" not found");
        Err(PromptError::NotFound(m))
    }
}

/// Every tool the router advertises is dispatchable by `call_tool`: no
/// advertised name ever draws the tool-not-found failure.
pub proof fn lemma_advertised_tools_dispatchable(router: PineconeAssistantRouter)
    requires
        router.wf(),
    ensures
        forall|i: int|
            0 <= i < router.tools@.len() ==> dispatchable(#[trigger] router.tools@[i].name@),
{
}

} // verus!
