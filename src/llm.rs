//! Local inference servers: which one to use, what to send it, and what its
//! answer means.
use vstd::prelude::*;
use crate::prompt::{build_prompt, mode_of_tag, template_of};
use crate::response::{parse_response, parsed};
use crate::text::{chars_of, string_of, trim, trim_chars};

verus! {

/// A local server that speaks the OpenAI-compatible chat protocol.
#[derive(Clone, Copy, PartialEq, Eq, Debug, Structural)]
pub enum Provider {
    LmStudio,
    Ollama,
}

/// The servers in the order in which they are probed; the first reachable one
/// is used.
pub open spec fn priority() -> Seq<Provider> {
    seq![Provider::LmStudio, Provider::Ollama]
}

/// The number of servers that detection considers.
pub const PROVIDER_COUNT: usize = 2;

pub open spec fn base_url_of(p: Provider) -> Seq<char> {
    match p {
        Provider::LmStudio => "http://127.0.0.1:1234"@,
        Provider::Ollama => "http://127.0.0.1:11434"@,
    }
}

pub open spec fn probe_path_of(p: Provider) -> Seq<char> {
    match p {
        Provider::LmStudio => "/v1/models"@,
        Provider::Ollama => ""@,
    }
}

pub open spec fn model_of(p: Provider) -> Seq<char> {
    match p {
        Provider::LmStudio => "default"@,
        Provider::Ollama => "qwen2.5:3b"@,
    }
}

pub open spec fn label_of(p: Provider) -> Seq<char> {
    match p {
        Provider::LmStudio => "LM Studio"@,
        Provider::Ollama => "Ollama"@,
    }
}

pub open spec fn chat_path() -> Seq<char> {
    "/v1/chat/completions"@
}

impl Provider {
    /// The server at position `i` of the probing order.
    pub fn at_priority(i: usize) -> (r: Provider)
        requires
            i < PROVIDER_COUNT,
        ensures
            r == priority()[i as int],
    {
        if i == 0 {
            Provider::LmStudio
        } else {
            Provider::Ollama
        }
    }

    pub fn base_url(&self) -> (r: String)
        ensures
            r@ == base_url_of(*self),
    {
        match self {
            Provider::LmStudio => "http://127.0.0.1:1234".to_owned(),
            Provider::Ollama => "http://127.0.0.1:11434".to_owned(),
        }
    }

    /// The address of the light capability check that tells whether the
    /// server runs.
    pub fn probe_url(&self) -> (r: String)
        ensures
            r@ == base_url_of(*self) + probe_path_of(*self),
    {
        let path = match self {
            Provider::LmStudio => "/v1/models",
            Provider::Ollama => "",
        };
        self.base_url().concat(path)
    }

    /// The address of the chat completion endpoint.
    pub fn chat_url(&self) -> (r: String)
        ensures
            r@ == base_url_of(*self) + chat_path(),
    {
        self.base_url().concat("/v1/chat/completions")
    }

    /// The model that is asked for on this server.
    pub fn model(&self) -> (r: String)
        ensures
            r@ == model_of(*self),
    {
        match self {
            Provider::LmStudio => "default".to_owned(),
            Provider::Ollama => "qwen2.5:3b".to_owned(),
        }
    }

    /// The name shown to the user.
    pub fn label(&self) -> (r: String)
        ensures
            r@ == label_of(*self),
    {
        match self {
            Provider::LmStudio => "LM Studio".to_owned(),
            Provider::Ollama => "Ollama".to_owned(),
        }
    }
}

/// What detection does next.
#[derive(Clone, Copy, PartialEq, Eq, Debug, Structural)]
pub enum DetectStep {
    /// Probe this server and report whether it answered with success.
    Probe(Provider),
    /// This server answered: use it.
    Found(Provider),
    /// Every server was probed and none answered.
    Unavailable,
}

/// The first position below `n`, from `i` on, whose probe succeeded.
pub open spec fn first_success_from(outcomes: Seq<bool>, i: int, n: int) -> Option<int>
    decreases n - i,
{
    if i < 0 || i >= n || i >= outcomes.len() {
        None
    } else if outcomes[i] {
        Some(i)
    } else {
        first_success_from(outcomes, i + 1, n)
    }
}

/// The step that follows the probe outcomes seen so far, given in probing
/// order.
pub open spec fn detect_spec(outcomes: Seq<bool>) -> DetectStep {
    match first_success_from(outcomes, 0, PROVIDER_COUNT as int) {
        Some(j) => DetectStep::Found(priority()[j]),
        None => if outcomes.len() < PROVIDER_COUNT {
            DetectStep::Probe(priority()[outcomes.len() as int])
        } else {
            DetectStep::Unavailable
        },
    }
}

/// Decides the next step of provider detection from the outcomes of the
/// probes made so far: a server whose probe succeeded is used at once, else
/// the next server in the fixed order is probed, and once all failed there is
/// none.
pub fn detect_step(outcomes: &Vec<bool>) -> (r: DetectStep)
    ensures
        r == detect_spec(outcomes@),
{
    let mut i: usize = 0;
    while i < PROVIDER_COUNT && i < outcomes.len()
        invariant
            i <= PROVIDER_COUNT,
            first_success_from(outcomes@, 0, PROVIDER_COUNT as int) == first_success_from(
                outcomes@,
                i as int,
                PROVIDER_COUNT as int,
            ),
        decreases PROVIDER_COUNT - i,
    {
        if outcomes[i] {
            return DetectStep::Found(Provider::at_priority(i));
        }
        i = i + 1;
    }
    if outcomes.len() < PROVIDER_COUNT {
        DetectStep::Probe(Provider::at_priority(outcomes.len()))
    } else {
        DetectStep::Unavailable
    }
}

/// When the first server in the probing order answers, detection picks it,
/// whatever the later probes would have said; so two runs against an
/// unchanged set of running servers pick the same one.
pub proof fn lemma_detection_prefers_first(a: Seq<bool>, b: Seq<bool>)
    requires
        a.len() >= 1,
        b.len() >= 1,
        a[0],
        b[0],
    ensures
        detect_spec(a) == DetectStep::Found(Provider::LmStudio),
        detect_spec(a) == detect_spec(b),
{
}

/// A snapshot of whether a local server can be used.
pub struct LlmStatus {
    pub available: bool,
    pub provider: String,
    pub model: String,
}

/// The status reported for the outcome of detection: unavailability is a
/// status like any other.
pub fn status_for(found: Option<Provider>) -> (r: LlmStatus)
    ensures
        r.available == found is Some,
        found matches Some(p) ==> r.provider@ == label_of(p) && r.model@ == model_of(p),
        found is None ==> r.provider@ == "none"@ && r.model@ == Seq::<char>::empty(),
{
    match found {
        Some(p) => LlmStatus { available: true, provider: p.label(), model: p.model() },
        None => LlmStatus { available: false, provider: "none".to_owned(), model: String::new() },
    }
}

/// The rewrite that a user asks for.
pub struct RewriteRequest {
    pub text: String,
    pub mode: String,
}

/// A rewritten text and the explanation of what changed; the explanation is
/// empty when the model gave none.
pub struct RewriteResult {
    pub rewritten: String,
    pub explanation: String,
}

/// A user's rating of one rewrite.
pub struct FeedbackRequest {
    pub rating: String,
    pub original_text: String,
    pub rewritten_text: String,
    pub mode: String,
}

/// The system instruction sent with every rewrite.
pub open spec fn system_prompt() -> Seq<char> {
    "You are a writing assistant. You help improve text while preserving the writer's voice. Always explain WHY you made changes so the writer learns. Be concise."@
}

/// The message reported when no local server answers.
pub open spec fn no_server_message() -> Seq<char> {
    "No LLM server found. Install Ollama or LM Studio."@
}

/// The single chat completion request of a rewrite.
pub struct ChatPlan {
    pub url: String,
    pub model: String,
    pub system: String,
    pub user: String,
}

/// The request that rewrites `text` in the mode that `mode` names, on the
/// server that detection found; without one the rewrite fails.
pub fn plan_rewrite(found: Option<Provider>, text: &str, mode: &str) -> (r: Result<
    ChatPlan,
    String,
>)
    ensures
        found is None <==> r is Err,
        r matches Err(e) ==> e@ == no_server_message(),
        found matches Some(p) ==> (r matches Ok(plan) && plan.url@ == base_url_of(p) + chat_path()
            && plan.model@ == model_of(p) && plan.system@ == system_prompt() && plan.user@
            == template_of(mode_of_tag(mode@)) + text@),
{
    match found {
        None => Err("No LLM server found. Install Ollama or LM Studio.".to_owned()),
        Some(p) => Ok(
            ChatPlan {
                url: p.chat_url(),
                model: p.model(),
                system: "You are a writing assistant. You help improve text while preserving the writer's voice. Always explain WHY you made changes so the writer learns. Be concise.".to_owned(),
                user: build_prompt(text, mode),
            },
        ),
    }
}

/// The completion that a rewrite reads: the first choice, trimmed, or empty
/// when the server returned none.
pub open spec fn completion_of(choices: Seq<String>) -> Seq<char> {
    if choices.len() > 0 {
        trim(choices[0]@)
    } else {
        Seq::empty()
    }
}

/// The result of a rewrite, from the contents of the choices that the server
/// returned.
pub fn finish_rewrite(choices: &Vec<String>) -> (r: RewriteResult)
    ensures
        r.rewritten@ == parsed(completion_of(choices@)).0,
        r.explanation@ == parsed(completion_of(choices@)).1,
{
    let full = if choices.len() > 0 {
        string_of(&trim_chars(&chars_of(choices[0].as_str())))
    } else {
        String::new()
    };
    let (rewritten, explanation) = parse_response(full.as_str());
    RewriteResult { rewritten, explanation }
}

} // verus!
