use vstd::prelude::*;
use crate::api::{ChatCompletionRequest, ChatCompletionResponse, ChatMessage, MessageRole, Turn, first_reply, turns};
use crate::client::{ApiError, ClientView, OpenRouterClient, opt_text, status_outcome, success_status};
use crate::text::{after_first, is_escaped, lower_of, lowercase, same_text, starts_with_bang, trim, trim_of, utf8_lossy, utf8_lossy_of};

verus! {

/// The text fields of an inbound chat message: the plain conversation text
/// and the text of an extended (quoted or formatted) message.
#[derive(Clone, Debug)]
pub struct InboundText {
    pub conversation: Option<String>,
    pub extended_text: Option<String>,
}

/// The text of an optional field when it is there and not empty.
pub open spec fn nonempty_text(o: Option<String>) -> Option<Seq<char>> {
    match o {
        Some(s) => if s@.len() > 0 { Some(s@) } else { None },
        None => None,
    }
}

/// The payload of a message: the first non-empty of its text fields.
pub open spec fn payload_of(m: InboundText) -> Option<Seq<char>> {
    match nonempty_text(m.conversation) {
        Some(t) => Some(t),
        None => nonempty_text(m.extended_text),
    }
}

fn nonempty_field(o: &Option<String>) -> (r: Option<String>)
    ensures
        opt_text(r) == nonempty_text(*o),
{
    match o {
        Some(s) => if s.as_str().unicode_len() > 0 {
            Some(s.clone())
        } else {
            None
        },
        None => None,
    }
}

/// The payload of a message, if it has one.
pub fn message_text(m: &InboundText) -> (r: Option<String>)
    ensures
        opt_text(r) == payload_of(*m),
{
    match nonempty_field(&m.conversation) {
        Some(t) => Some(t),
        None => nonempty_field(&m.extended_text),
    }
}

/// What the bot does next for one inbound message.
#[derive(Clone, Debug)]
pub enum Action {
    /// Nothing is sent.
    Ignore,
    /// Run `command` with `sh -c` in `working_dir`, then hand the result to
    /// `after_shell`.
    RunShell { command: String, working_dir: String },
    /// Send this text to the chat that the message came from.
    Send(String),
    /// Post this request to the completion endpoint, then hand the result to
    /// `after_completion`.
    Complete(ChatCompletionRequest),
}

/// Whether `r` sends exactly `text`.
pub open spec fn sends(r: Action, text: Seq<char>) -> bool {
    match r {
        Action::Send(s) => s@ == text,
        _ => false,
    }
}

/// Whether `r` posts a request with the client's model, its context bundle
/// followed by `tail`, and no sampling parameters.
pub open spec fn completes(c: ClientView, r: Action, tail: Seq<Turn>) -> bool {
    match r {
        Action::Complete(req) => req.model@ == c.model && turns(req.messages@) == c.context + tail
            && req.max_tokens is None,
        _ => false,
    }
}

/// Why an escaped command cannot run without a fragment directory.
pub open spec fn no_directory_reason() -> Seq<char> {
    "no working directory is configured"@
}

/// The result of an escaped command that was not started because no
/// fragment directory is configured.
pub fn no_directory() -> (r: ShellResult)
    ensures
        match r {
            ShellResult::SpawnFailed(why) => why@ == no_directory_reason(),
            _ => false,
        },
{
    ShellResult::SpawnFailed("no working directory is configured".to_string())
}

/// How an escaped text `t` is handled: with a fragment directory, the rest
/// of it runs there as a shell command; without one, an error is replied.
pub open spec fn escape_handled(c: ClientView, t: Seq<char>, r: Action) -> bool {
    match c.kisah_path {
        Some(dir) => match r {
            Action::RunShell { command, working_dir } => command@ == t.drop_first() && working_dir@
                == dir,
            _ => false,
        },
        None => sends(r, "Failed to execute command: "@ + no_directory_reason()),
    }
}

/// How the router answers text `t` once it is lowered and trimmed into
/// `normalized`: an escaped text is a shell command, `ping` gets `pong`,
/// anything else goes to the model as one User turn.
pub open spec fn routed(c: ClientView, t: Seq<char>, normalized: Seq<char>, r: Action) -> bool {
    if is_escaped(t) {
        escape_handled(c, t, r)
    } else if normalized == "ping"@ {
        sends(r, "pong"@)
    } else {
        completes(c, r, seq![(MessageRole::User, t)])
    }
}

/// Routes text `text`, given `normalized`, the text lowered and trimmed.
pub fn route_normalized(client: &OpenRouterClient, text: String, normalized: &str) -> (r: Action)
    ensures
        routed(client@, text@, normalized@, r),
{
    if starts_with_bang(text.as_str()) {
        match client.get_kisah_path() {
            Some(dir) => Action::RunShell { command: after_first(text.as_str()), working_dir: dir },
            None => after_shell(&no_directory()),
        }
    } else if same_text(normalized, "ping") {
        proof {
            reveal_strlit("ping");
            reveal_strlit("pong");
        }
        Action::Send("pong".to_string())
    } else {
        let ghost t = text@;
        let turn = ChatMessage::new(MessageRole::User, text);
        let msgs = vec![turn];
        assert(turns(msgs@) =~= seq![(MessageRole::User, t)]);
        let req = client.build_request(msgs);
        assert(completes(client@, Action::Complete(req), seq![(MessageRole::User, t)]));
        Action::Complete(req)
    }
}

/// How the router answers a message: one without text is ignored, any
/// other is routed by its text, lowered and then trimmed.
pub open spec fn route_result(c: ClientView, msg: InboundText, r: Action) -> bool {
    match payload_of(msg) {
        None => r is Ignore,
        Some(t) => routed(c, t, trim_of(lower_of(t)), r),
    }
}

/// Routes one inbound message.
pub fn route(client: &OpenRouterClient, msg: &InboundText) -> (r: Action)
    ensures
        route_result(client@, *msg, r),
{
    match message_text(msg) {
        None => Action::Ignore,
        Some(text) => {
            let lowered = lowercase(text.as_str());
            let normalized = trim(lowered.as_str());
            route_normalized(client, text, normalized)
        },
    }
}

/// How an escaped command ended, its output decoded to text.
#[derive(Clone, Debug)]
pub enum ShellResult {
    /// It exited with status 0; this is its standard output.
    Succeeded(String),
    /// It exited with another status; this is its standard error.
    Failed(String),
    /// It could not be started; this says why.
    SpawnFailed(String),
}

/// The reply to an escaped command.
pub open spec fn shell_reply_spec(o: ShellResult) -> Seq<char> {
    match o {
        ShellResult::Succeeded(out) => out@,
        ShellResult::Failed(err) => "Error: "@ + err@,
        ShellResult::SpawnFailed(why) => "Failed to execute command: "@ + why@,
    }
}

/// Decodes what a finished command wrote: its standard output when it
/// succeeded, its standard error when not.
pub fn decode_shell_output(success: bool, stdout: &Vec<u8>, stderr: &Vec<u8>) -> (r: ShellResult)
    ensures
        success ==> (match r {
            ShellResult::Succeeded(s) => s@ == utf8_lossy_of(stdout@),
            _ => false,
        }),
        !success ==> (match r {
            ShellResult::Failed(s) => s@ == utf8_lossy_of(stderr@),
            _ => false,
        }),
{
    if success {
        ShellResult::Succeeded(utf8_lossy(stdout))
    } else {
        ShellResult::Failed(utf8_lossy(stderr))
    }
}

/// The reply text for an escaped command's result.
pub fn shell_reply(o: &ShellResult) -> (r: String)
    ensures
        r@ == shell_reply_spec(*o),
{
    match o {
        ShellResult::Succeeded(out) => out.clone(),
        ShellResult::Failed(err) => {
            let mut s = "Error: ".to_string();
            s.append(err.as_str());
            s
        },
        ShellResult::SpawnFailed(why) => {
            let mut s = "Failed to execute command: ".to_string();
            s.append(why.as_str());
            s
        },
    }
}

/// After an escaped command: its reply is always sent.
pub fn after_shell(o: &ShellResult) -> (r: Action)
    ensures
        sends(r, shell_reply_spec(*o)),
{
    Action::Send(shell_reply(o))
}

/// What follows a completion attempt: the first choice's text is sent; with
/// no choice, or on any failure, nothing is sent.
pub open spec fn completion_step(res: Result<ChatCompletionResponse, ApiError>, r: Action) -> bool {
    match res {
        Ok(resp) => match first_reply(resp) {
            Some(t) => sends(r, t),
            None => r is Ignore,
        },
        Err(_) => r is Ignore,
    }
}

/// After a completion attempt.
pub fn after_completion(res: &Result<ChatCompletionResponse, ApiError>) -> (r: Action)
    ensures
        completion_step(*res, r),
{
    match res {
        Ok(resp) => match resp.first_content() {
            Some(t) => Action::Send(t),
            None => Action::Ignore,
        },
        Err(_) => Action::Ignore,
    }
}

/// A message whose text is `ping` in any case and with any surrounding
/// whitespace is answered with exactly `pong`, and the model is not asked.
pub proof fn law_ping_answers_pong(c: ClientView, msg: InboundText, t: Seq<char>, r: Action)
    requires
        route_result(c, msg, r),
        payload_of(msg) == Some(t),
        !is_escaped(t),
        trim_of(lower_of(t)) == "ping"@,
    ensures
        sends(r, "pong"@),
        !(r is Complete),
{
}

/// A message that starts with `!` never reaches the model: the rest of it
/// runs as a shell command in the fragment directory, and the reply is the
/// command's standard output when it succeeded, its standard error after
/// `Error: ` when it failed, and the reason after `Failed to execute
/// command: ` when it could not be started. Without a fragment directory
/// nothing runs and that error is the reply.
pub proof fn law_escape_runs_shell(
    c: ClientView,
    msg: InboundText,
    t: Seq<char>,
    r: Action,
    outcome: ShellResult,
    reply: Action,
)
    requires
        route_result(c, msg, r),
        payload_of(msg) == Some(t),
        is_escaped(t),
        sends(reply, shell_reply_spec(outcome)),
    ensures
        !(r is Complete),
        !(reply is Complete),
        match c.kisah_path {
            Some(dir) => match r {
                Action::RunShell { command, working_dir } => command@ == t.drop_first()
                    && working_dir@ == dir,
                _ => false,
            },
            None => sends(r, "Failed to execute command: "@ + no_directory_reason()),
        },
        match outcome {
            ShellResult::Succeeded(out) => sends(reply, out@),
            ShellResult::Failed(err) => sends(reply, "Error: "@ + err@),
            ShellResult::SpawnFailed(why) => sends(reply, "Failed to execute command: "@ + why@),
        },
{
}

/// Any other message goes to the model as one request whose turns are the
/// context bundle, in fragment order, followed by one User turn holding the
/// message text.
pub proof fn law_conversation_goes_to_model(c: ClientView, msg: InboundText, t: Seq<char>, r: Action)
    requires
        route_result(c, msg, r),
        payload_of(msg) == Some(t),
        !is_escaped(t),
        trim_of(lower_of(t)) != "ping"@,
    ensures
        match r {
            Action::Complete(req) => {
                &&& req.model@ == c.model
                &&& turns(req.messages@).len() == c.context.len() + 1
                &&& turns(req.messages@).subrange(0, c.context.len() as int) == c.context
                &&& turns(req.messages@).last() == (MessageRole::User, t)
            },
            _ => false,
        },
{
    match r {
        Action::Complete(req) => {
            assert(turns(req.messages@).subrange(0, c.context.len() as int) =~= c.context);
        },
        _ => {},
    }
}

/// A response with no choices sends nothing.
pub proof fn law_no_choices_sends_nothing(resp: ChatCompletionResponse, r: Action)
    requires
        resp.choices@.len() == 0,
        completion_step(Ok(resp), r),
    ensures
        r is Ignore,
{
}

/// An answer with a failure status becomes a status error, and after it
/// nothing is sent; the router keeps no state, so the next message is
/// served as before.
pub proof fn law_failed_status_sends_nothing(code: u16, body: String, r: Action)
    requires
        !success_status(code),
        completion_step(Err(ApiError::Status { code, body }), r),
    ensures
        status_outcome(code, body) == Err::<String, ApiError>(ApiError::Status { code, body }),
        r is Ignore,
{
}

} // verus!
