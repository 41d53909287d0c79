use vstd::prelude::*;
use crate::api::{ChatCompletionRequest, ChatMessage, Turn, turns};
use crate::context::{build_context, bundle_of, fragments_view};

verus! {

/// Where completion requests are posted.
pub open spec fn endpoint_spec() -> Seq<char> {
    "https://openrouter.ai/api/v1/chat/completions"@
}

/// The URL of the completion endpoint.
pub fn completion_endpoint() -> (r: String)
    ensures
        r@ == endpoint_spec(),
{
    proof {
        reveal_strlit("https://openrouter.ai/api/v1/chat/completions");
    }
    "https://openrouter.ai/api/v1/chat/completions".to_string()
}

/// Why a completion could not be had.
#[derive(Clone, Debug)]
pub enum ApiError {
    /// The request could not be sent or its answer not received.
    Transport(String),
    /// The endpoint answered with a status outside 200..=299; `body` is its
    /// text, verbatim.
    Status { code: u16, body: String },
    /// The body of a successful answer was not a completion response.
    Parse(String),
}

/// Whether an HTTP status code means success (200 to 299).
pub open spec fn success_status(code: u16) -> bool {
    200 <= code <= 299
}

/// Whether an HTTP status code means success.
pub fn is_success_status(code: u16) -> (r: bool)
    ensures
        r == success_status(code),
{
    200 <= code && code <= 299
}

/// What an answer with status `code` and text `body` becomes.
pub open spec fn status_outcome(code: u16, body: String) -> Result<String, ApiError> {
    if success_status(code) {
        Ok(body)
    } else {
        Err(ApiError::Status { code, body })
    }
}

/// Sorts an answer of the endpoint: on success its body is handed on to be
/// parsed, otherwise it becomes a status error carrying the code and the
/// body verbatim.
pub fn check_status(code: u16, body: String) -> (r: Result<String, ApiError>)
    ensures
        r == status_outcome(code, body),
{
    if is_success_status(code) {
        Ok(body)
    } else {
        Err(ApiError::Status { code, body })
    }
}

/// The optional text of an optional string.
pub open spec fn opt_text(o: Option<String>) -> Option<Seq<char>> {
    match o {
        Some(s) => Some(s@),
        None => None,
    }
}

/// What a completion client is: its credential, model, fragment directory
/// and the fixed context bundle placed before every request.
pub struct ClientView {
    pub api_key: Seq<char>,
    pub model: Seq<char>,
    pub kisah_path: Option<Seq<char>>,
    pub context: Seq<Turn>,
}

/// A client of the remote chat-completion API. Its context bundle is fixed
/// when it is made.
pub struct OpenRouterClient {
    api_key: String,
    model: String,
    kisah_path: Option<String>,
    kisah_context: Vec<ChatMessage>,
}

impl View for OpenRouterClient {
    type V = ClientView;

    closed spec fn view(&self) -> ClientView {
        ClientView {
            api_key: self.api_key@,
            model: self.model@,
            kisah_path: opt_text(self.kisah_path),
            context: turns(self.kisah_context@),
        }
    }
}

/// The headers of a request, as text pairs.
pub open spec fn headers_view(h: Seq<(String, String)>) -> Seq<(Seq<char>, Seq<char>)> {
    h.map_values(|p: (String, String)| (p.0@, p.1@))
}

impl OpenRouterClient {
    /// A client for `model`, authenticated by `api_key`. `fragments` holds
    /// what was read for each named fragment under `kisah_path`, in fragment
    /// order; without a directory the context bundle is empty.
    pub fn new(
        api_key: String,
        model: String,
        kisah_path: Option<String>,
        fragments: Vec<Option<String>>,
    ) -> (r: OpenRouterClient)
        ensures
            r@.api_key == api_key@,
            r@.model == model@,
            r@.kisah_path == opt_text(kisah_path),
            r@.context == (if kisah_path is Some {
                bundle_of(fragments_view(fragments@))
            } else {
                Seq::<Turn>::empty()
            }),
    {
        let kisah_context = if kisah_path.is_some() {
            build_context(&fragments)
        } else {
            let v: Vec<ChatMessage> = Vec::new();
            assert(turns(v@) =~= Seq::<Turn>::empty());
            v
        };
        OpenRouterClient { api_key, model, kisah_path, kisah_context }
    }

    /// The fragment directory, which is also where escaped commands run.
    pub fn get_kisah_path(&self) -> (r: Option<String>)
        ensures
            opt_text(r) == self@.kisah_path,
    {
        match &self.kisah_path {
            Some(p) => Some(p.clone()),
            None => None,
        }
    }

    /// The model named in every request.
    pub fn model(&self) -> (r: &String)
        ensures
            r@ == self@.model,
    {
        &self.model
    }

    /// The context bundle.
    pub fn context(&self) -> (r: &Vec<ChatMessage>)
        ensures
            turns(r@) == self@.context,
    {
        &self.kisah_context
    }

    /// The request for a conversation: the model, then the context bundle
    /// followed by the caller's turns, with no sampling parameters.
    pub fn build_request(&self, messages: Vec<ChatMessage>) -> (r: ChatCompletionRequest)
        ensures
            r.model@ == self@.model,
            turns(r.messages@) == self@.context + turns(messages@),
            r.max_tokens is None,
    {
        let mut all: Vec<ChatMessage> = Vec::new();
        let mut i: usize = 0;
        while i < self.kisah_context.len()
            invariant
                i <= self.kisah_context@.len(),
                turns(all@) == turns(self.kisah_context@.subrange(0, i as int)),
            decreases self.kisah_context@.len() - i,
        {
            let ghost before = all@;
            all.push(self.kisah_context[i].duplicate());
            assert(turns(all@) =~= turns(before).push(self.kisah_context@[i as int]@));
            assert(turns(all@) =~= turns(self.kisah_context@.subrange(0, i as int + 1)));
            i = i + 1;
        }
        assert(self.kisah_context@.subrange(0, i as int) =~= self.kisah_context@);
        let ghost prefix = all@;
        let mut j: usize = 0;
        while j < messages.len()
            invariant
                j <= messages@.len(),
                turns(all@) == turns(prefix) + turns(messages@.subrange(0, j as int)),
            decreases messages@.len() - j,
        {
            let ghost before = all@;
            all.push(messages[j].duplicate());
            assert(turns(all@) =~= turns(before).push(messages@[j as int]@));
            assert(turns(all@) =~= turns(prefix) + turns(messages@.subrange(0, j as int + 1)));
            j = j + 1;
        }
        assert(messages@.subrange(0, j as int) =~= messages@);
        ChatCompletionRequest { model: self.model.clone(), messages: all, max_tokens: None }
    }

    /// The headers of every request: the key as a bearer credential, the
    /// JSON content type, and the two headers that name the application.
    pub fn request_headers(&self) -> (r: Vec<(String, String)>)
        ensures
            headers_view(r@) == seq![
                ("Authorization"@, "Bearer "@ + self@.api_key),
                ("Content-Type"@, "application/json"@),
                ("HTTP-Referer"@, "https://github.com/fepfitra/mykisah"@),
                ("X-Title"@, "MyKisah"@),
            ],
    {
        let mut bearer = "Bearer ".to_string();
        bearer.append(self.api_key.as_str());
        let r = vec![
            ("Authorization".to_string(), bearer),
            ("Content-Type".to_string(), "application/json".to_string()),
            ("HTTP-Referer".to_string(), "https://github.com/fepfitra/mykisah".to_string()),
            ("X-Title".to_string(), "MyKisah".to_string()),
        ];
        assert(headers_view(r@) =~= seq![
            ("Authorization"@, "Bearer "@ + self@.api_key),
            ("Content-Type"@, "application/json"@),
            ("HTTP-Referer"@, "https://github.com/fepfitra/mykisah"@),
            ("X-Title"@, "MyKisah"@),
        ]);
        r
    }
}

} // verus!
