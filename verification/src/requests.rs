//! Building the requests, one per remote operation.
//!
//! Each builder produces a fully formed [`ApiRequest`]: the URL under the
//! client's base, the headers the endpoint requires, and the JSON body
//! framed around the caller's values. The contracts state every one of
//! those pieces exactly, up to the named results of the JSON and base64
//! encoders.

use vstd::prelude::*;
use vstd::string::*;
use crate::codec::array_normalized;
use crate::codec::base64_encode;
use crate::codec::base64_of;
use crate::codec::json_array_normalize;
use crate::codec::json_quote;
use crate::codec::json_quoted;
use crate::codec::json_str_array_normalize;
use crate::codec::str_array_normalized;
use crate::http::ApiRequest;
use crate::http::Method;
use crate::http::bearer_header;
use crate::http::beta_header;
use crate::http::json_content_header;
use crate::strutil::dec_rep;
use crate::strutil::push_decimal;

verus! {

/// The base URL of the assistant service.
pub const OPENAI_BASE_URL: &'static str = "https://api.openai.com/v1";

/// Why a request could not be built from the caller's arguments.
#[derive(Clone, Copy, PartialEq, Eq, Structural, Debug)]
pub enum RequestError {
    /// The messages argument did not parse as a JSON array.
    MessagesNotArray,
    /// The file identifiers argument did not parse as a JSON array of strings.
    FileIdsNotStrings,
}

/// The value of a bearer authorization header for this key.
pub open spec fn bearer_of(api_key: Seq<char>) -> Seq<char> {
    "Bearer "@ + api_key
}

/// One header carries this name and value.
pub open spec fn header_is(h: (String, String), name: Seq<char>, value: Seq<char>) -> bool {
    h.0@ == name && h.1@ == value
}

/// The header list of a bare authenticated call: authorization alone.
pub open spec fn auth_only_headers(hs: Seq<(String, String)>, api_key: Seq<char>) -> bool {
    &&& hs.len() == 1
    &&& header_is(hs[0], "Authorization"@, bearer_of(api_key))
}

/// The header list of an authenticated JSON call.
pub open spec fn auth_json_headers(hs: Seq<(String, String)>, api_key: Seq<char>) -> bool {
    &&& hs.len() == 2
    &&& header_is(hs[0], "Authorization"@, bearer_of(api_key))
    &&& header_is(hs[1], "Content-Type"@, "application/json"@)
}

/// The header list of an authenticated JSON call against a beta endpoint.
pub open spec fn auth_json_beta_headers(hs: Seq<(String, String)>, api_key: Seq<char>) -> bool {
    &&& hs.len() == 3
    &&& header_is(hs[0], "Authorization"@, bearer_of(api_key))
    &&& header_is(hs[1], "Content-Type"@, "application/json"@)
    &&& header_is(hs[2], "OpenAI-Beta"@, "assistants=v2"@)
}

/// The header list of an authenticated bodyless call against a beta endpoint.
pub open spec fn auth_beta_headers(hs: Seq<(String, String)>, api_key: Seq<char>) -> bool {
    &&& hs.len() == 2
    &&& header_is(hs[0], "Authorization"@, bearer_of(api_key))
    &&& header_is(hs[1], "OpenAI-Beta"@, "assistants=v2"@)
}

/// The body of a legacy completion request.
pub open spec fn completion_body(model: Seq<char>, prompt: Seq<char>, max_tokens: nat) -> Seq<char> {
    "{\"model\":"@ + json_quoted(model) + ",\"prompt\":"@ + json_quoted(prompt)
        + ",\"max_tokens\":"@ + dec_rep(max_tokens) + "}"@
}

/// The body of an assistance request.
pub open spec fn assistance_body(model: Seq<char>, input: Seq<char>) -> Seq<char> {
    "{\"model\":"@ + json_quoted(model) + ",\"input\":"@ + json_quoted(input) + "}"@
}

/// The body of a chat completion request, around the normalized messages
/// array.
pub open spec fn chat_completion_body(model: Seq<char>, messages: Seq<char>) -> Seq<char> {
    "{\"model\":"@ + json_quoted(model) + ",\"messages\":"@ + messages + ",\"stream\":false}"@
}

/// The body of a file upload: the file's bytes in base64, with the fixed
/// purpose and the file's name.
pub open spec fn upload_body(data: Seq<u8>, filename: Seq<char>) -> Seq<char> {
    "{\"file\":"@ + json_quoted(base64_of(data)) + ",\"purpose\":\"assistants\",\"name\":"@
        + json_quoted(filename) + "}"@
}

/// The body of an assistant creation, around the normalized file-identifier
/// array.
pub open spec fn create_assistant_body(
    name: Seq<char>,
    instructions: Seq<char>,
    model: Seq<char>,
    file_ids: Seq<char>,
) -> Seq<char> {
    "{\"name\":"@ + json_quoted(name) + ",\"instructions\":"@ + json_quoted(instructions)
        + ",\"model\":"@ + json_quoted(model)
        + ",\"tools\":[{\"type\":\"retrieval\"}],\"file_ids\":"@ + file_ids + "}"@
}

/// The body of a message creation, around the normalized file-identifier
/// array.
pub open spec fn create_message_body(content: Seq<char>, file_ids: Seq<char>) -> Seq<char> {
    "{\"role\":\"user\",\"content\":"@ + json_quoted(content) + ",\"file_ids\":"@ + file_ids
        + "}"@
}

/// The body of a run creation, with the instructions when the caller gave
/// any.
pub open spec fn run_assistant_body(
    assistant_id: Seq<char>,
    instructions: Option<Seq<char>>,
) -> Seq<char> {
    match instructions {
        None => "{\"assistant_id\":"@ + json_quoted(assistant_id) + "}"@,
        Some(i) => "{\"assistant_id\":"@ + json_quoted(assistant_id) + ",\"instructions\":"@
            + json_quoted(i) + "}"@,
    }
}

/// The body of an image analysis: a chat completion against the fixed model
/// and prompt, with the image's URL as an image-url content part.
pub open spec fn analyze_image_body(image_url: Seq<char>) -> Seq<char> {
    "{\"model\":\"gpt-4o-mini\",\"messages\":[{\"role\":\"user\",\"content\":[{\"type\":\"text\",\"text\":\"Please analyze this image and provide a description along with key details.\"},{\"type\":\"image_url\",\"image_url\":{\"url\":"@
        + json_quoted(image_url) + "}}]}],\"max_tokens\":300}"@
}

/// The body of the assistant created for one file analysis.
pub open spec fn analyze_file_assistant_body(file_id: Seq<char>) -> Seq<char> {
    "{\"model\":\"gpt-4-turbo-preview\",\"instructions\":\"Please analyze the provided file and give a detailed summary with key details.\",\"tools\":[{\"type\":\"retrieval\"}],\"file_ids\":["@
        + json_quoted(file_id) + "]}"@
}

/// The body of the message posted for one file analysis.
pub open spec fn analyze_file_message_body(file_id: Seq<char>) -> Seq<char> {
    "{\"role\":\"user\",\"content\":\"Please analyze this file and provide a comprehensive summary with key details.\",\"file_ids\":["@
        + json_quoted(file_id) + "]}"@
}

/// A client of the remote service: the base URL every request is built
/// under, and the key its authenticated calls carry.
pub struct ApiClient {
    pub base_url: String,
    pub api_key: String,
}

impl ApiClient {
    /// A client against the given base URL.
    pub fn new(base_url: String, api_key: String) -> (c: ApiClient)
        ensures
            c.base_url == base_url,
            c.api_key == api_key,
    {
        ApiClient { base_url, api_key }
    }

    /// A client against the service's fixed base URL.
    pub fn openai(api_key: String) -> (c: ApiClient)
        ensures
            c.base_url@ == "https://api.openai.com/v1"@,
            c.api_key == api_key,
    {
        ApiClient { base_url: String::from_str(OPENAI_BASE_URL), api_key }
    }

    fn auth_only_header_vec(&self) -> (hs: Vec<(String, String)>)
        ensures
            auth_only_headers(hs@, self.api_key@),
    {
        let mut hs: Vec<(String, String)> = Vec::new();
        hs.push(bearer_header(self.api_key.as_str()));
        hs
    }

    fn auth_json_header_vec(&self) -> (hs: Vec<(String, String)>)
        ensures
            auth_json_headers(hs@, self.api_key@),
    {
        let mut hs: Vec<(String, String)> = Vec::new();
        hs.push(bearer_header(self.api_key.as_str()));
        hs.push(json_content_header());
        hs
    }

    fn auth_json_beta_header_vec(&self) -> (hs: Vec<(String, String)>)
        ensures
            auth_json_beta_headers(hs@, self.api_key@),
    {
        let mut hs: Vec<(String, String)> = Vec::new();
        hs.push(bearer_header(self.api_key.as_str()));
        hs.push(json_content_header());
        hs.push(beta_header());
        hs
    }

    fn auth_beta_header_vec(&self) -> (hs: Vec<(String, String)>)
        ensures
            auth_beta_headers(hs@, self.api_key@),
    {
        let mut hs: Vec<(String, String)> = Vec::new();
        hs.push(bearer_header(self.api_key.as_str()));
        hs.push(beta_header());
        hs
    }

    fn base_joined(&self, suffix: &str) -> (u: String)
        ensures
            u@ == self.base_url@ + suffix@,
    {
        let mut u = self.base_url.clone();
        u.append(suffix);
        u
    }

    fn thread_joined(&self, thread_id: &str, suffix: &str) -> (u: String)
        ensures
            u@ == self.base_url@ + "/threads/"@ + thread_id@ + suffix@,
    {
        let mut u = self.base_url.clone();
        u.append("/threads/");
        u.append(thread_id);
        u.append(suffix);
        u
    }

    fn run_joined(&self, thread_id: &str, run_id: &str) -> (u: String)
        ensures
            u@ == self.base_url@ + "/threads/"@ + thread_id@ + "/runs/"@ + run_id@,
    {
        let mut u = self.base_url.clone();
        u.append("/threads/");
        u.append(thread_id);
        u.append("/runs/");
        u.append(run_id);
        u
    }

    /// The legacy completion call: model, prompt and token bound.
    pub fn completion_request(&self, prompt: &str, model: &str, max_tokens: u32) -> (r: ApiRequest)
        ensures
            r.method == Method::Post,
            r.url@ == self.base_url@ + "/completions"@,
            auth_json_headers(r.headers@, self.api_key@),
            r.body matches Some(b) && b@ == completion_body(model@, prompt@, max_tokens as nat),
    {
        let mut body = String::from_str("{\"model\":");
        let q_model = json_quote(model);
        body.append(q_model.as_str());
        body.append(",\"prompt\":");
        let q_prompt = json_quote(prompt);
        body.append(q_prompt.as_str());
        body.append(",\"max_tokens\":");
        push_decimal(&mut body, max_tokens as u64);
        body.append("}");
        ApiRequest {
            method: Method::Post,
            url: self.base_joined("/completions"),
            headers: self.auth_json_header_vec(),
            body: Some(body),
        }
    }

    /// The assistance call: model and input.
    pub fn assistance_request(&self, input: &str, model: &str) -> (r: ApiRequest)
        ensures
            r.method == Method::Post,
            r.url@ == self.base_url@ + "/assistances"@,
            auth_json_beta_headers(r.headers@, self.api_key@),
            r.body matches Some(b) && b@ == assistance_body(model@, input@),
    {
        let mut body = String::from_str("{\"model\":");
        let q_model = json_quote(model);
        body.append(q_model.as_str());
        body.append(",\"input\":");
        let q_input = json_quote(input);
        body.append(q_input.as_str());
        body.append("}");
        ApiRequest {
            method: Method::Post,
            url: self.base_joined("/assistances"),
            headers: self.auth_json_beta_header_vec(),
            body: Some(body),
        }
    }

    /// The chat completion call. The messages argument must itself be a JSON
    /// array; it is rejected, and no request built, exactly when it is not.
    pub fn chat_completion_request(&self, messages: &str, model: &str) -> (r: Result<
        ApiRequest,
        RequestError,
    >)
        ensures
            match r {
                Ok(req) => ({
                    &&& array_normalized(messages@) matches Some(a) && req.body matches Some(b)
                        && b@ == chat_completion_body(model@, a)
                    &&& req.method == Method::Post
                    &&& req.url@ == self.base_url@ + "/chat/completions"@
                    &&& auth_json_headers(req.headers@, self.api_key@)
                }),
                Err(e) => e == RequestError::MessagesNotArray && array_normalized(messages@) is None,
            },
    {
        match json_array_normalize(messages) {
            None => Err(RequestError::MessagesNotArray),
            Some(a) => {
                let mut body = String::from_str("{\"model\":");
                let q_model = json_quote(model);
                body.append(q_model.as_str());
                body.append(",\"messages\":");
                body.append(a.as_str());
                body.append(",\"stream\":false}");
                Ok(ApiRequest {
                    method: Method::Post,
                    url: self.base_joined("/chat/completions"),
                    headers: self.auth_json_header_vec(),
                    body: Some(body),
                })
            },
        }
    }

    /// The file upload: the file's bytes go up base64-encoded in a JSON
    /// body. The length bound keeps the encoding's output addressable.
    pub fn upload_file_request(&self, file_data: &[u8], filename: &str) -> (r: ApiRequest)
        requires
            (file_data@.len() + 2) / 3 * 4 <= usize::MAX as nat,
        ensures
            r.method == Method::Post,
            r.url@ == self.base_url@ + "/files"@,
            auth_json_beta_headers(r.headers@, self.api_key@),
            r.body matches Some(b) && b@ == upload_body(file_data@, filename@),
    {
        let encoded = base64_encode(file_data);
        let mut body = String::from_str("{\"file\":");
        let q_data = json_quote(encoded.as_str());
        body.append(q_data.as_str());
        body.append(",\"purpose\":\"assistants\",\"name\":");
        let q_name = json_quote(filename);
        body.append(q_name.as_str());
        body.append("}");
        ApiRequest {
            method: Method::Post,
            url: self.base_joined("/files"),
            headers: self.auth_json_beta_header_vec(),
            body: Some(body),
        }
    }

    /// The assistant creation call. The file identifiers must be a JSON
    /// array of strings; they are rejected, and no request built, exactly
    /// when they are not.
    pub fn create_assistant_request(
        &self,
        name: &str,
        instructions: &str,
        model: &str,
        file_ids: &str,
    ) -> (r: Result<ApiRequest, RequestError>)
        ensures
            match r {
                Ok(req) => ({
                    &&& str_array_normalized(file_ids@) matches Some(ids) && req.body matches Some(
                        b,
                    ) && b@ == create_assistant_body(name@, instructions@, model@, ids)
                    &&& req.method == Method::Post
                    &&& req.url@ == self.base_url@ + "/assistants"@
                    &&& auth_json_beta_headers(req.headers@, self.api_key@)
                }),
                Err(e) => e == RequestError::FileIdsNotStrings && str_array_normalized(file_ids@)
                    is None,
            },
    {
        match json_str_array_normalize(file_ids) {
            None => Err(RequestError::FileIdsNotStrings),
            Some(ids) => {
                let mut body = String::from_str("{\"name\":");
                let q_name = json_quote(name);
                body.append(q_name.as_str());
                body.append(",\"instructions\":");
                let q_instructions = json_quote(instructions);
                body.append(q_instructions.as_str());
                body.append(",\"model\":");
                let q_model = json_quote(model);
                body.append(q_model.as_str());
                body.append(",\"tools\":[{\"type\":\"retrieval\"}],\"file_ids\":");
                body.append(ids.as_str());
                body.append("}");
                Ok(ApiRequest {
                    method: Method::Post,
                    url: self.base_joined("/assistants"),
                    headers: self.auth_json_beta_header_vec(),
                    body: Some(body),
                })
            },
        }
    }

    /// The thread creation call: sent bare, without headers or body.
    pub fn create_thread_request(&self) -> (r: ApiRequest)
        ensures
            r.method == Method::Post,
            r.url@ == self.base_url@ + "/threads"@,
            r.headers@.len() == 0,
            r.body is None,
    {
        ApiRequest {
            method: Method::Post,
            url: self.base_joined("/threads"),
            headers: Vec::new(),
            body: None,
        }
    }

    /// The message creation call: a user message with its content and file
    /// identifiers, which must be a JSON array.
    pub fn create_message_request(&self, thread_id: &str, content: &str, file_ids: &str) -> (r:
        Result<ApiRequest, RequestError>)
        ensures
            match r {
                Ok(req) => ({
                    &&& str_array_normalized(file_ids@) matches Some(ids) && req.body matches Some(
                        b,
                    ) && b@ == create_message_body(content@, ids)
                    &&& req.method == Method::Post
                    &&& req.url@ == self.base_url@ + "/threads/"@ + thread_id@ + "/messages"@
                    &&& auth_json_headers(req.headers@, self.api_key@)
                }),
                Err(e) => e == RequestError::FileIdsNotStrings && str_array_normalized(file_ids@)
                    is None,
            },
    {
        match json_str_array_normalize(file_ids) {
            None => Err(RequestError::FileIdsNotStrings),
            Some(ids) => {
                let mut body = String::from_str("{\"role\":\"user\",\"content\":");
                let q_content = json_quote(content);
                body.append(q_content.as_str());
                body.append(",\"file_ids\":");
                body.append(ids.as_str());
                body.append("}");
                Ok(ApiRequest {
                    method: Method::Post,
                    url: self.thread_joined(thread_id, "/messages"),
                    headers: self.auth_json_header_vec(),
                    body: Some(body),
                })
            },
        }
    }

    /// The run creation call: the assistant to run, with override
    /// instructions when the caller gives any.
    pub fn run_assistant_request(
        &self,
        thread_id: &str,
        assistant_id: &str,
        instructions: Option<&str>,
    ) -> (r: ApiRequest)
        ensures
            r.method == Method::Post,
            r.url@ == self.base_url@ + "/threads/"@ + thread_id@ + "/runs"@,
            auth_json_beta_headers(r.headers@, self.api_key@),
            r.body matches Some(b) && b@ == run_assistant_body(
                assistant_id@,
                match instructions {
                    Some(i) => Some(i@),
                    None => None,
                },
            ),
    {
        let mut body = String::from_str("{\"assistant_id\":");
        let q_assistant = json_quote(assistant_id);
        body.append(q_assistant.as_str());
        match instructions {
            Some(i) => {
                body.append(",\"instructions\":");
                let q_instructions = json_quote(i);
                body.append(q_instructions.as_str());
                body.append("}");
            },
            None => {
                body.append("}");
            },
        }
        ApiRequest {
            method: Method::Post,
            url: self.thread_joined(thread_id, "/runs"),
            headers: self.auth_json_beta_header_vec(),
            body: Some(body),
        }
    }

    /// The run status fetch: a bare authenticated GET of one run.
    pub fn get_run_request(&self, thread_id: &str, run_id: &str) -> (r: ApiRequest)
        ensures
            r.method == Method::Get,
            r.url@ == self.base_url@ + "/threads/"@ + thread_id@ + "/runs/"@ + run_id@,
            auth_only_headers(r.headers@, self.api_key@),
            r.body is None,
    {
        ApiRequest {
            method: Method::Get,
            url: self.run_joined(thread_id, run_id),
            headers: self.auth_only_header_vec(),
            body: None,
        }
    }

    /// The message listing call: a bare authenticated GET of a thread's
    /// messages.
    pub fn list_messages_request(&self, thread_id: &str) -> (r: ApiRequest)
        ensures
            r.method == Method::Get,
            r.url@ == self.base_url@ + "/threads/"@ + thread_id@ + "/messages"@,
            auth_only_headers(r.headers@, self.api_key@),
            r.body is None,
    {
        ApiRequest {
            method: Method::Get,
            url: self.thread_joined(thread_id, "/messages"),
            headers: self.auth_only_header_vec(),
            body: None,
        }
    }

    /// The image analysis call: a chat completion against the fixed model
    /// and prompt, with the image's URL embedded.
    pub fn analyze_image_request(&self, image_url: &str) -> (r: ApiRequest)
        ensures
            r.method == Method::Post,
            r.url@ == self.base_url@ + "/chat/completions"@,
            auth_json_headers(r.headers@, self.api_key@),
            r.body matches Some(b) && b@ == analyze_image_body(image_url@),
    {
        let mut body = String::from_str(
            "{\"model\":\"gpt-4o-mini\",\"messages\":[{\"role\":\"user\",\"content\":[{\"type\":\"text\",\"text\":\"Please analyze this image and provide a description along with key details.\"},{\"type\":\"image_url\",\"image_url\":{\"url\":",
        );
        let q_url = json_quote(image_url);
        body.append(q_url.as_str());
        body.append("}}]}],\"max_tokens\":300}");
        ApiRequest {
            method: Method::Post,
            url: self.base_joined("/chat/completions"),
            headers: self.auth_json_header_vec(),
            body: Some(body),
        }
    }

    /// The assistant created for one file analysis: fixed model and
    /// instructions, the file attached for retrieval.
    pub fn analyze_file_assistant_request(&self, file_id: &str) -> (r: ApiRequest)
        ensures
            r.method == Method::Post,
            r.url@ == self.base_url@ + "/assistants"@,
            auth_json_beta_headers(r.headers@, self.api_key@),
            r.body matches Some(b) && b@ == analyze_file_assistant_body(file_id@),
    {
        let mut body = String::from_str(
            "{\"model\":\"gpt-4-turbo-preview\",\"instructions\":\"Please analyze the provided file and give a detailed summary with key details.\",\"tools\":[{\"type\":\"retrieval\"}],\"file_ids\":[",
        );
        let q_file = json_quote(file_id);
        body.append(q_file.as_str());
        body.append("]}");
        ApiRequest {
            method: Method::Post,
            url: self.base_joined("/assistants"),
            headers: self.auth_json_beta_header_vec(),
            body: Some(body),
        }
    }

    /// The thread created for one file analysis: authenticated against the
    /// beta endpoint, without a body.
    pub fn analyze_file_thread_request(&self) -> (r: ApiRequest)
        ensures
            r.method == Method::Post,
            r.url@ == self.base_url@ + "/threads"@,
            auth_beta_headers(r.headers@, self.api_key@),
            r.body is None,
    {
        ApiRequest {
            method: Method::Post,
            url: self.base_joined("/threads"),
            headers: self.auth_beta_header_vec(),
            body: None,
        }
    }

    /// The message posted for one file analysis: the fixed prompt, the file
    /// attached.
    pub fn analyze_file_message_request(&self, thread_id: &str, file_id: &str) -> (r: ApiRequest)
        ensures
            r.method == Method::Post,
            r.url@ == self.base_url@ + "/threads/"@ + thread_id@ + "/messages"@,
            auth_json_beta_headers(r.headers@, self.api_key@),
            r.body matches Some(b) && b@ == analyze_file_message_body(file_id@),
    {
        let mut body = String::from_str(
            "{\"role\":\"user\",\"content\":\"Please analyze this file and provide a comprehensive summary with key details.\",\"file_ids\":[",
        );
        let q_file = json_quote(file_id);
        body.append(q_file.as_str());
        body.append("]}");
        ApiRequest {
            method: Method::Post,
            url: self.thread_joined(thread_id, "/messages"),
            headers: self.auth_json_beta_header_vec(),
            body: Some(body),
        }
    }
}

} // verus!
