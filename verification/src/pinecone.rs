//! The backend client: it owns the knowledge-base credential and base
//! URL, knows the wire shape of the one backend endpoint, and interprets
//! the backend's HTTP outcome into a structured response or one of a
//! small taxonomy of failures.
//!
//! The network transfer itself is not performed here: the client derives
//! the complete request (URL, headers, body) as plain data, and is handed
//! back the status and body text of whatever reply arrived.

use vstd::prelude::*;

use crate::json::json_quote;
use crate::json::json_quoted;
use crate::text::decimal_text;
use crate::text::u64_to_string;
use crate::text::has_substring;
use crate::text::lemma_concat_has_substring;

verus! {

/// A failure of the one backend operation.
#[derive(Debug)]
pub enum PineconeError {
    /// A network-level failure (connection, TLS, timeout, or a failed
    /// body read), carrying the transport's description of it.
    Request { message: String },
    /// A non-2xx, non-404 reply, carrying the status and the raw
    /// response body text.
    Api { status: u16, message: String },
    /// A 404 reply: the named assistant does not exist.
    NotFound { resource: String },
    /// A 2xx reply whose body does not have the expected shape.
    Json { message: String },
}

/// The message text of a transport failure.
pub open spec fn request_error_text(detail: Seq<char>) -> Seq<char> {
    "HTTP request error: "@ + detail
}

/// The message text of a backend API failure.
pub open spec fn api_error_text(status: u16, body: Seq<char>) -> Seq<char> {
    "API error: "@ + decimal_text(status as nat) + " - "@ + body
}

/// The resource named by a 404 reply for `assistant_name`.
pub open spec fn not_found_resource_text(assistant_name: Seq<char>) -> Seq<char> {
    "assistant \""@ + assistant_name + "\""@
}

/// The message text of a not-found failure.
pub open spec fn not_found_error_text(resource: Seq<char>) -> Seq<char> {
    "API error: "@ + resource + " not found"@
}

/// The message text of a response-decode failure.
pub open spec fn json_error_text(detail: Seq<char>) -> Seq<char> {
    "JSON deserialization error: "@ + detail
}

impl PineconeError {
    /// The human-readable message of this failure.
    pub open spec fn text(&self) -> Seq<char> {
        match self {
            PineconeError::Request { message } => request_error_text(message@),
            PineconeError::Api { status, message } => api_error_text(*status, message@),
            PineconeError::NotFound { resource } => not_found_error_text(resource@),
            PineconeError::Json { message } => json_error_text(message@),
        }
    }

    /// Renders the human-readable message of this failure.
    pub fn message(&self) -> (r: String)
        ensures
            r@ == self.text(),
    {
        match self {
            PineconeError::Request { message } => {
                let mut s = String::from_str("HTTP request error: ");
                s.append(message.as_str());
                s
            },
            PineconeError::Api { status, message } => {
                let mut s = String::from_str("API error: ");
                let dec = u64_to_string(*status as u64);
                s.append(dec.as_str());
                s.append(" - ");
                s.append(message.as_str());
                s
            },
            PineconeError::NotFound { resource } => {
                let mut s = String::from_str("API error: ");
                s.append(resource.as_str());
                s.append(" not found");
                s
            },
            PineconeError::Json { message } => {
                let mut s = String::from_str("JSON deserialization error: ");
                s.append(message.as_str());
                s
            },
        }
    }
}

/// The message of a backend API failure names the numeric status and
/// carries the raw response body text.
pub proof fn lemma_api_error_names_status_and_body(status: u16, body: Seq<char>)
    ensures
        has_substring(api_error_text(status, body), decimal_text(status as nat)),
        has_substring(api_error_text(status, body), body),
{
    let dec = decimal_text(status as nat);
    assert(api_error_text(status, body) =~= "API error: "@ + dec + (" - "@ + body));
    lemma_concat_has_substring("API error: "@, dec, " - "@ + body);
    assert(api_error_text(status, body) =~= ("API error: "@ + dec + " - "@) + body
        + Seq::<char>::empty());
    lemma_concat_has_substring("API error: "@ + dec + " - "@, body, Seq::<char>::empty());
}

/// The message of a not-found failure names the missing assistant.
pub proof fn lemma_not_found_names_assistant(assistant_name: Seq<char>)
    ensures
        has_substring(
            not_found_error_text(not_found_resource_text(assistant_name)),
            assistant_name,
        ),
{
    assert(not_found_error_text(not_found_resource_text(assistant_name)) =~= ("API error: "@
        + "assistant \""@) + assistant_name + ("\""@ + " not found"@));
    lemma_concat_has_substring(
        "API error: "@ + "assistant \""@,
        assistant_name,
        "\""@ + " not found"@,
    );
}

/// The body of the one backend request: the query, and an optional bound
/// on how many snippets to retrieve. When the bound is absent it is
/// omitted from the request body entirely.
#[derive(Debug)]
pub struct AssistantContext {
    pub query: String,
    pub top_k: Option<u32>,
}

/// The JSON text of the request body for `query` and `top_k`: when
/// `top_k` is absent the body carries no such member at all.
pub open spec fn context_body_text(query: Seq<char>, top_k: Option<u32>) -> Seq<char> {
    match top_k {
        Some(k) => "{\"query\":"@ + json_quoted(query) + ",\"top_k\":"@ + decimal_text(k as nat)
            + "}"@,
        None => "{\"query\":"@ + json_quoted(query) + "}"@,
    }
}

impl AssistantContext {
    /// Renders the JSON request body.
    pub fn body_json(&self) -> (r: String)
        ensures
            r@ == context_body_text(self.query@, self.top_k),
    {
        let mut s = String::from_str("{\"query\":");
        let quoted = json_quote(self.query.as_str());
        s.append(quoted.as_str());
        match self.top_k {
            Some(k) => {
                s.append(",\"top_k\":");
                let dec = u64_to_string(k as u64);
                s.append(dec.as_str());
                s.append("}");
            },
            None => {
                s.append("}");
            },
        }
        s
    }
}

/// A successful backend reply: the retrieved snippets and the usage
/// report, each kept as the JSON text the backend sent for it.
#[derive(Debug)]
pub struct AssistantContextResponse {
    pub snippets: Vec<String>,
    pub usage: String,
}

/// What a 2xx response body decodes to, if it has the expected shape: a
/// JSON object with a `snippets` array and a `usage` member. The decoded
/// form is the JSON text of each snippet, in order, and of the usage
/// value; all of it a function of the body text alone.
pub uninterp spec fn decoded_context(body: Seq<char>) -> Option<(Seq<Seq<char>>, Seq<char>)>;

/// Relies on `serde_json::from_str` to parse the body and on the JSON
/// text rendering of `serde_json::Value` to serialize each snippet and
/// the usage value back; both depend on the body text alone. Nothing is
/// claimed of the error text.
#[verifier::external_body]
fn decode_context_body(body: &str) -> (r: Result<AssistantContextResponse, String>)
    ensures
        (r is Ok) == (decoded_context(body@) is Some),
        r matches Ok(resp) ==> Some((resp.snippets.deep_view(), resp.usage@)) == decoded_context(
            body@,
        ),
{
    let value: serde_json::Value = match serde_json::from_str(body) {
        Ok(v) => v,
        Err(e) => return Err(e.to_string()),
    };
    match (value.get("snippets").and_then(serde_json::Value::as_array), value.get("usage")) {
        (Some(snippets), Some(usage)) => Ok(AssistantContextResponse {
            snippets: snippets.iter().map(|s| s.to_string()).collect(),
            usage: usage.to_string(),
        }),
        _ => Err("response is not an object with `snippets` and `usage`".to_string()),
    }
}

/// The complete backend request for one call, as plain data: where to
/// send it, with which headers, and with what body.
pub struct ContextRequestPlan {
    pub url: String,
    pub body: String,
    pub headers: Vec<(String, String)>,
}

/// The URL of the one backend endpoint, parameterized by the assistant.
pub open spec fn context_url_text(base_url: Seq<char>, assistant_name: Seq<char>) -> Seq<char> {
    base_url + "/assistant/chat/"@ + assistant_name + "/context"@
}

/// The four headers every backend request carries: the credential, the
/// two content-negotiation headers, and the pinned API version.
pub open spec fn headers_ok(headers: Seq<(String, String)>, api_key: Seq<char>) -> bool {
    &&& headers.len() == 4
    &&& headers[0].0@ == "Api-Key"@ && headers[0].1@ == api_key
    &&& headers[1].0@ == "accept"@ && headers[1].1@ == "application/json"@
    &&& headers[2].0@ == "Content-Type"@ && headers[2].1@ == "application/json"@
    &&& headers[3].0@ == "X-Pinecone-API-Version"@ && headers[3].1@ == "2025-04"@
}

/// What came back from one attempted HTTP exchange: either a reply with
/// its status and full body text, or a transport-level failure.
pub enum BackendReply {
    Http { status: u16, body: String },
    Transport { message: String },
}

/// The backend client's identity: the credential and the base URL. The
/// shared transport handle lives with the code that performs the
/// exchange.
pub struct PineconeClient {
    pub api_key: String,
    pub base_url: String,
}

impl PineconeClient {
    pub fn new(api_key: String, base_url: String) -> (r: PineconeClient)
        ensures
            r.api_key == api_key,
            r.base_url == base_url,
    {
        PineconeClient { api_key, base_url }
    }

    /// Derives the one backend request that answers a context call: the
    /// parameterized URL, the fixed headers, and the JSON body.
    pub fn assistant_context_request(&self, assistant_name: &str, request: &AssistantContext) -> (r:
        ContextRequestPlan)
        ensures
            r.url@ == context_url_text(self.base_url@, assistant_name@),
            r.body@ == context_body_text(request.query@, request.top_k),
            headers_ok(r.headers@, self.api_key@),
    {
        let mut url = self.base_url.clone();
        url.append("/assistant/chat/");
        url.append(assistant_name);
        url.append("/context");
        let body = request.body_json();
        let mut headers: Vec<(String, String)> = Vec::new();
        headers.push((String::from_str("Api-Key"), self.api_key.clone()));
        headers.push((String::from_str("accept"), String::from_str("application/json")));
        headers.push((String::from_str("Content-Type"), String::from_str("application/json")));
        headers.push((String::from_str("X-Pinecone-API-Version"), String::from_str("2025-04")));
        ContextRequestPlan { url, body, headers }
    }

    /// Interprets what came back for a context call against
    /// `assistant_name`: a 2xx reply is decoded, a 404 names the missing
    /// assistant, any other status carries the status and the raw body,
    /// and a transport failure propagates as such.
    pub fn assistant_context_result(&self, assistant_name: &str, reply: BackendReply) -> (r: Result<
        AssistantContextResponse,
        PineconeError,
    >)
        ensures
            reply matches BackendReply::Transport { message } ==> r == Err::<
                AssistantContextResponse,
                PineconeError,
            >(PineconeError::Request { message }),
            reply matches BackendReply::Http { status, body } ==> {
                if 200 <= status && status < 300 {
                    match decoded_context(body@) {
                        Some(decoded) => r matches Ok(resp) && resp.snippets.deep_view()
                            == decoded.0 && resp.usage@ == decoded.1,
                        None => r matches Err(e) && e is Json,
                    }
                } else if status == 404 {
                    r matches Err(e) && e matches PineconeError::NotFound { resource }
                        && resource@ == not_found_resource_text(assistant_name@)
                } else {
                    r == Err::<AssistantContextResponse, PineconeError>(
                        PineconeError::Api { status, message: body },
                    )
                }
            },
    {
        match reply {
            BackendReply::Transport { message } => Err(PineconeError::Request { message }),
            BackendReply::Http { status, body } => {
                if !(200 <= status && status < 300) {
                    if status == 404 {
                        let mut resource = String::from_str("assistant \"");
                        resource.append(assistant_name);
                        resource.append("\"");
                        Err(PineconeError::NotFound { resource })
                    } else {
                        Err(PineconeError::Api { status, message: body })
                    }
                } else {
                    match decode_context_body(body.as_str()) {
                        Ok(resp) => Ok(resp),
                        Err(message) => Err(PineconeError::Json { message }),
                    }
                }
            },
        }
    }
}

} // verus!
