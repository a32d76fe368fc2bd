use vstd::prelude::*;

use crate::config::opt_text;
use crate::state::{is_user, roles_alternate, AppState, ChatMessage, MessageRole};
use crate::text::{chars_of, decimal_of, decimal_text, string_of, trim, trimmed_of};

verus! {

/// Most messages sent with one request.
pub const MAX_HISTORY_MESSAGES: usize = 50;

/// Index of the first message sent: the last fifty are kept, and a leading
/// assistant message among them is dropped so the slice starts with the user.
pub open spec fn history_start(msgs: Seq<ChatMessage>) -> int {
    let s = if msgs.len() > 50 {
        msgs.len() - 50
    } else {
        0
    };
    if s < msgs.len() && !is_user(msgs[s]) {
        s + 1
    } else {
        s
    }
}

/// `sent` holds the messages of `msgs` from `start` on, in order.
pub open spec fn copies_from(msgs: Seq<ChatMessage>, start: int, sent: Seq<ChatMessage>) -> bool {
    &&& 0 <= start <= msgs.len()
    &&& sent.len() == msgs.len() - start
    &&& forall|i: int|
        0 <= i < sent.len() ==> (#[trigger] sent[i]).role == msgs[start + i].role
            && sent[i].content@ == msgs[start + i].content@
}

/// The conversation slice sent to the remote service.
pub fn trim_history(messages: &Vec<ChatMessage>) -> (r: Vec<ChatMessage>)
    ensures
        copies_from(messages@, history_start(messages@), r@),
{
    let n = messages.len();
    let mut start: usize = if n > MAX_HISTORY_MESSAGES {
        n - MAX_HISTORY_MESSAGES
    } else {
        0
    };
    if start < n && messages[start].role == MessageRole::Assistant {
        start = start + 1;
    }
    let mut r: Vec<ChatMessage> = Vec::new();
    let mut i: usize = start;
    while i < n
        invariant
            n == messages@.len(),
            start == history_start(messages@),
            start <= i <= n,
            r@.len() == i - start,
            forall|k: int|
                0 <= k < r@.len() ==> (#[trigger] r@[k]).role == messages@[start + k].role
                    && r@[k].content@ == messages@[start + k].content@,
        decreases n - i,
    {
        let m = &messages[i];
        r.push(ChatMessage { role: m.role, content: m.content.clone() });
        i = i + 1;
    }
    r
}

/// Every slice sent holds at most fifty messages, starts with a user
/// message, and keeps the conversation's order.
pub proof fn lemma_sent_history_shape(msgs: Seq<ChatMessage>, sent: Seq<ChatMessage>)
    requires
        roles_alternate(msgs),
        copies_from(msgs, history_start(msgs), sent),
    ensures
        sent.len() <= MAX_HISTORY_MESSAGES,
        sent.len() > 0 ==> sent[0].role == MessageRole::User,
        forall|i: int, j: int|
            0 <= i < j < sent.len() ==> exists|a: int, b: int|
                0 <= a < b < msgs.len() && (#[trigger] sent[i]).content@ == msgs[a].content@
                    && (#[trigger] sent[j]).content@ == msgs[b].content@,
{
    let start = history_start(msgs);
    if sent.len() > 0 {
        assert(sent[0].role == msgs[start].role);
        if start > 0 && !is_user(msgs[start]) {
            assert(is_user(msgs[start - 1]));
        }
    }
    assert forall|i: int, j: int| 0 <= i < j < sent.len() implies exists|a: int, b: int|
        0 <= a < b < msgs.len() && (#[trigger] sent[i]).content@ == msgs[a].content@
            && (#[trigger] sent[j]).content@ == msgs[b].content@ by {
        assert(sent[i].content@ == msgs[start + i].content@);
        assert(sent[j].content@ == msgs[start + j].content@);
    }
}

/// The system instruction: the configured prompt, preceded by the game's
/// name when it is known.
pub open spec fn system_text_of(game: Option<Seq<char>>, prompt: Seq<char>) -> Seq<char> {
    match game {
        Some(name) => "The user is currently playing "@ + name + ". "@ + prompt,
        None => prompt,
    }
}

/// The system instruction sent with a request; `None` when it is empty.
pub fn system_instruction(game_name: &Option<String>, prompt: &str) -> (r: Option<String>)
    ensures
        r.is_none() <==> system_text_of(opt_text(*game_name), prompt@).len() == 0,
        r matches Some(t) ==> t@ == system_text_of(opt_text(*game_name), prompt@),
{
    let text = match game_name {
        Some(name) => String::from_str("The user is currently playing ").concat(
            name.as_str(),
        ).concat(". ").concat(prompt),
        None => String::from_str(prompt),
    };
    if text.unicode_len() == 0 {
        None
    } else {
        Some(text)
    }
}

/// Why a request produced no reply.
pub enum RequestFailure {
    /// No key is configured.
    MissingKey,
    /// The service answered with a status outside 200 to 299.
    Status(u16),
    /// The request timed out.
    Timeout,
    /// Any other transport failure, with its description.
    Transport(String),
    /// The response stream broke off, with its description.
    Stream(String),
    /// The stream ended without any text.
    EmptyBody,
}

pub open spec fn status_text(code: u16) -> Seq<char> {
    if code == 400 {
        "Bad request. Try a shorter message."@
    } else if code == 403 {
        "Invalid API key."@
    } else if code == 429 {
        "Rate limited."@
    } else if code == 500 || code == 503 {
        "API server error. Try again."@
    } else {
        "API error (HTTP "@ + decimal_of(code as nat) + ")."@
    }
}

/// The user-visible text of each failure.
pub open spec fn failure_text(f: RequestFailure) -> Seq<char> {
    match f {
        RequestFailure::MissingKey => "No API key configured. Add your key to config.toml."@,
        RequestFailure::Status(code) => status_text(code),
        RequestFailure::Timeout => "Request timed out. Try again."@,
        RequestFailure::Transport(d) => "Network error: "@ + d@,
        RequestFailure::Stream(d) => "Stream error: "@ + d@,
        RequestFailure::EmptyBody => "Empty response from API."@,
    }
}

impl RequestFailure {
    /// The text shown in the status line.
    pub fn message(&self) -> (r: String)
        ensures
            r@ == failure_text(*self),
    {
        match self {
            RequestFailure::MissingKey => String::from_str(
                "No API key configured. Add your key to config.toml.",
            ),
            RequestFailure::Status(code) => {
                let code = *code;
                if code == 400 {
                    String::from_str("Bad request. Try a shorter message.")
                } else if code == 403 {
                    String::from_str("Invalid API key.")
                } else if code == 429 {
                    String::from_str("Rate limited.")
                } else if code == 500 || code == 503 {
                    String::from_str("API server error. Try again.")
                } else {
                    let digits = decimal_text(code as u32);
                    String::from_str("API error (HTTP ").concat(digits.as_str()).concat(").")
                }
            },
            RequestFailure::Timeout => String::from_str("Request timed out. Try again."),
            RequestFailure::Transport(d) => String::from_str("Network error: ").concat(d.as_str()),
            RequestFailure::Stream(d) => String::from_str("Stream error: ").concat(d.as_str()),
            RequestFailure::EmptyBody => String::from_str("Empty response from API."),
        }
    }
}

/// A response status of 200 to 299 is a success; any other is a failure.
pub fn check_status(status: u16) -> (r: Option<RequestFailure>)
    ensures
        200 <= status <= 299 ==> r.is_none(),
        !(200 <= status <= 299) ==> r == Some(RequestFailure::Status(status)),
{
    if 200 <= status && status <= 299 {
        None
    } else {
        Some(RequestFailure::Status(status))
    }
}

/// Index of the first newline in `s`, if any.
pub open spec fn first_newline(s: Seq<char>) -> Option<int> {
    if exists|i: int| 0 <= i < s.len() && s[i] == '\n' {
        Some(choose|i: int| 0 <= i < s.len() && s[i] == '\n' && forall|j: int| 0 <= j < i ==> s[j] != '\n')
    } else {
        None
    }
}

/// Splits a response stream into its complete lines. Text after the last
/// newline waits for the next chunk.
pub struct LineBuffer {
    pub pending: Vec<char>,
}

impl LineBuffer {
    pub fn new() -> (r: LineBuffer)
        ensures
            r.pending@.len() == 0,
    {
        LineBuffer { pending: Vec::new() }
    }

    /// Adds a received chunk.
    pub fn push_text(&mut self, chunk: &str)
        ensures
            final(self).pending@ == old(self).pending@ + chunk@,
    {
        let mut cs = chars_of(chunk);
        self.pending.append(&mut cs);
    }

    /// Takes the next complete line, trimmed, without its newline; `None`
    /// when no newline has arrived yet.
    pub fn next_line(&mut self) -> (r: Option<String>)
        ensures
            match first_newline(old(self).pending@) {
                None => r.is_none() && final(self).pending@ == old(self).pending@,
                Some(p) => {
                    &&& r matches Some(line)
                    &&& line@ == trimmed_of(old(self).pending@.subrange(0, p))
                    &&& final(self).pending@ == old(self).pending@.subrange(
                        p + 1,
                        old(self).pending@.len() as int,
                    )
                },
            },
    {
        let n = self.pending.len();
        let mut i: usize = 0;
        while i < n && self.pending[i] != '\n'
            invariant
                n == self.pending@.len(),
                self.pending@ == old(self).pending@,
                i <= n,
                forall|j: int| 0 <= j < i ==> self.pending@[j] != '\n',
            decreases n - i,
        {
            i = i + 1;
        }
        if i == n {
            proof {
                if exists|k: int| 0 <= k < n && self.pending@[k] == '\n' {
                    let k = choose|k: int| 0 <= k < n && self.pending@[k] == '\n';
                    assert(self.pending@[k] != '\n');
                }
            }
            return None;
        }
        proof {
            let s = old(self).pending@;
            assert(0 <= i < s.len() && s[i as int] == '\n');
            let p = choose|k: int|
                0 <= k < s.len() && s[k] == '\n' && forall|j: int| 0 <= j < k ==> s[j] != '\n';
            if p < i {
                assert(s[p] != '\n');
            } else if p > i {
                assert(s[i as int] != '\n');
            }
            assert(first_newline(s) == Some(i as int));
        }
        let ghost s = self.pending@;
        let rest = self.pending.split_off(i + 1);
        self.pending.truncate(i);
        assert(self.pending@ =~= s.subrange(0, i as int));
        let raw = string_of(self.pending.as_slice());
        let line = trim(raw.as_str());
        self.pending = rest;
        Some(line)
    }
}

pub open spec fn data_prefix() -> Seq<char> {
    "data: "@
}

/// The payload of a stream line that starts with `data: `.
pub open spec fn payload_of(line: Seq<char>) -> Option<Seq<char>> {
    if line.len() >= 6 && line.subrange(0, 6) == data_prefix() {
        Some(line.subrange(6, line.len() as int))
    } else {
        None
    }
}

/// The payload of a `data: ` line; `None` for any other line.
pub fn data_payload(line: &str) -> (r: Option<String>)
    ensures
        opt_text(r) == payload_of(line@),
{
    let n = line.unicode_len();
    if n < 6 {
        return None;
    }
    let head = line.substring_char(0, 6);
    if !crate::text::text_eq(head, "data: ") {
        return None;
    }
    Some(String::from_str(line.substring_char(6, n)))
}

/// The text the user message is replaced with for a translation request.
pub open spec fn translation_prompt_of(target: Seq<char>) -> Seq<char> {
    "Translate all foreign/non-English text visible on screen to "@ + target
        + ". If no foreign text is visible, say so briefly. Be concise \u{2014} just provide the translations, grouped logically."@
}

/// The translation instruction for a target language.
pub fn build_translation_prompt(target_language: &str) -> (r: String)
    ensures
        r@ == translation_prompt_of(target_language@),
{
    String::from_str("Translate all foreign/non-English text visible on screen to ").concat(
        target_language,
    ).concat(
        ". If no foreign text is visible, say so briefly. Be concise \u{2014} just provide the translations, grouped logically.",
    )
}

/// The history for a translation request: the last message, when it is the
/// user's, carries the translation instruction instead of its text.
pub fn translation_history(messages: Vec<ChatMessage>, prompt: String) -> (r: Vec<ChatMessage>)
    ensures
        r@.len() == messages@.len(),
        forall|i: int|
            0 <= i < r@.len() - 1 ==> (#[trigger] r@[i]) == messages@[i],
        r@.len() > 0 ==> r@.last().role == messages@.last().role,
        r@.len() > 0 && is_user(messages@.last()) ==> r@.last().content@ == prompt@,
        r@.len() > 0 && !is_user(messages@.last()) ==> r@.last() == messages@.last(),
{
    let mut msgs = messages;
    let n = msgs.len();
    if n > 0 && msgs[n - 1].role == MessageRole::User {
        msgs.set(n - 1, ChatMessage { role: MessageRole::User, content: prompt });
    }
    msgs
}

/// One entry of the request body: a role, its text, and an inline PNG
/// (base-64) for the last user message when a screenshot is attached.
pub struct RequestTurn {
    pub role: MessageRole,
    pub text: String,
    pub image: Option<String>,
}

/// The turns of a request: one per message, with the screenshot on the last
/// message when that message is the user's.
pub fn request_turns(messages: &Vec<ChatMessage>, screenshot: Option<String>) -> (r: Vec<RequestTurn>)
    ensures
        r@.len() == messages@.len(),
        forall|i: int|
            0 <= i < r@.len() ==> (#[trigger] r@[i]).role == messages@[i].role && r@[i].text@
                == messages@[i].content@,
        forall|i: int|
            0 <= i < r@.len() ==> ((#[trigger] r@[i]).image.is_some() <==> (i == r@.len() - 1
                && is_user(messages@[i]) && screenshot.is_some())),
        r@.len() > 0 && is_user(messages@.last()) ==> opt_text(r@.last().image) == opt_text(
            screenshot,
        ),
{
    let n = messages.len();
    let mut r: Vec<RequestTurn> = Vec::new();
    let mut shot = screenshot;
    let ghost shot0 = shot;
    let mut i: usize = 0;
    while i < n
        invariant
            n == messages@.len(),
            i <= n,
            r@.len() == i,
            shot == shot0,
            forall|k: int|
                0 <= k < i ==> (#[trigger] r@[k]).role == messages@[k].role && r@[k].text@
                    == messages@[k].content@,
            forall|k: int|
                0 <= k < i ==> ((#[trigger] r@[k]).image.is_some() <==> (k == n - 1 && is_user(
                    messages@[k],
                ) && shot0.is_some())),
            forall|k: int|
                0 <= k < i ==> (k == n - 1 && is_user(messages@[k])) ==> opt_text(
                    (#[trigger] r@[k]).image,
                ) == opt_text(shot0),
        decreases n - i,
    {
        let m = &messages[i];
        let image = if i == n - 1 && m.role == MessageRole::User {
            clone_text(&shot)
        } else {
            None
        };
        r.push(RequestTurn { role: m.role, text: m.content.clone(), image });
        i = i + 1;
    }
    r
}

fn clone_text(v: &Option<String>) -> (r: Option<String>)
    ensures
        opt_text(r) == opt_text(*v),
{
    match v {
        Some(s) => Some(s.clone()),
        None => None,
    }
}

pub open spec fn wire_role_of(role: MessageRole) -> Seq<char> {
    match role {
        MessageRole::User => "user"@,
        MessageRole::Assistant => "model"@,
    }
}

/// The role name the remote service uses.
pub fn wire_role(role: MessageRole) -> (r: &'static str)
    ensures
        r@ == wire_role_of(role),
{
    match role {
        MessageRole::User => "user",
        MessageRole::Assistant => "model",
    }
}

pub open spec fn stream_endpoint_of(model: Seq<char>) -> Seq<char> {
    "https://generativelanguage.googleapis.com/v1beta/models/"@ + model
        + ":streamGenerateContent?alt=sse"@
}

/// The streaming endpoint for a model.
pub fn stream_endpoint(model: &str) -> (r: String)
    ensures
        r@ == stream_endpoint_of(model@),
{
    String::from_str("https://generativelanguage.googleapis.com/v1beta/models/").concat(model).concat(
        ":streamGenerateContent?alt=sse",
    )
}

/// A request needs a configured key.
pub fn check_api_key(key: &str) -> (r: Option<RequestFailure>)
    ensures
        key@.len() == 0 ==> r == Some(RequestFailure::MissingKey),
        key@.len() > 0 ==> r.is_none(),
{
    if key.unicode_len() == 0 {
        Some(RequestFailure::MissingKey)
    } else {
        None
    }
}

/// The result of a finished stream: all the text received, or a failure
/// when there was none.
pub fn reply_outcome(full_text: String) -> (r: Result<String, RequestFailure>)
    ensures
        full_text@.len() == 0 ==> r == Err::<String, RequestFailure>(RequestFailure::EmptyBody),
        full_text@.len() > 0 ==> r == Ok::<String, RequestFailure>(full_text),
{
    if full_text.unicode_len() == 0 {
        Err(RequestFailure::EmptyBody)
    } else {
        Ok(full_text)
    }
}

pub open spec fn data_url_of(screenshot: Seq<char>) -> Seq<char> {
    "data:image/png;base64,"@ + screenshot
}

/// The inline image URL sent to a local model.
pub fn image_data_url(screenshot: &str) -> (r: String)
    ensures
        r@ == data_url_of(screenshot@),
{
    String::from_str("data:image/png;base64,").concat(screenshot)
}

/// Why a translation by the local model produced no reply.
pub enum LocalFailure {
    /// No screenshot was captured to translate.
    NoScreenshot,
    /// The request timed out.
    Timeout,
    /// No connection to the endpoint.
    Connect { endpoint: String },
    /// Any other transport failure, with its description.
    Transport(String),
    /// A status outside 200 to 299, with its text and the response body.
    Status { status: String, body: String },
    /// The response could not be parsed, with the parser's description.
    Parse(String),
    /// The response held no choice.
    Empty,
}

pub open spec fn local_failure_text(f: LocalFailure) -> Seq<char> {
    match f {
        LocalFailure::NoScreenshot => "No screenshot captured for translation."@,
        LocalFailure::Timeout => "Local model timed out. Is it running?"@,
        LocalFailure::Connect { endpoint } => "Cannot connect to local model at "@ + endpoint@
            + ". Is Ollama/LM Studio running?"@,
        LocalFailure::Transport(d) => "Local model error: "@ + d@,
        LocalFailure::Status { status, body } => "Local model error (HTTP "@ + status@ + "): "@
            + body@,
        LocalFailure::Parse(d) => "Failed to parse local model response: "@ + d@,
        LocalFailure::Empty => "Empty response from local model."@,
    }
}

impl LocalFailure {
    /// The text shown in the status line.
    pub fn message(&self) -> (r: String)
        ensures
            r@ == local_failure_text(*self),
    {
        match self {
            LocalFailure::NoScreenshot => String::from_str("No screenshot captured for translation."),
            LocalFailure::Timeout => String::from_str("Local model timed out. Is it running?"),
            LocalFailure::Connect { endpoint } => String::from_str(
                "Cannot connect to local model at ",
            ).concat(endpoint.as_str()).concat(". Is Ollama/LM Studio running?"),
            LocalFailure::Transport(d) => String::from_str("Local model error: ").concat(d.as_str()),
            LocalFailure::Status { status, body } => String::from_str("Local model error (HTTP ").concat(
                status.as_str(),
            ).concat("): ").concat(body.as_str()),
            LocalFailure::Parse(d) => String::from_str("Failed to parse local model response: ").concat(
                d.as_str(),
            ),
            LocalFailure::Empty => String::from_str("Empty response from local model."),
        }
    }
}

/// What became of one streamed text fragment.
#[derive(Clone, Copy, PartialEq, Eq, Debug, Structural)]
pub enum FragmentStep {
    /// The fragment was empty: nothing changed.
    Skipped,
    /// Added to the reply and to the shared state.
    Appended,
    /// Added to the reply, but the generation is no longer current: the
    /// task stops and writes nothing more.
    Cancelled,
}

/// Handles one text fragment of the reply stream of `generation`: a
/// non-empty one is added to the reply being collected and, while the
/// generation is current, to the shared state's streaming text.
pub fn accept_fragment(
    full_text: &mut String,
    state: &mut AppState,
    generation: u64,
    text: &str,
) -> (r: FragmentStep)
    ensures
        text@.len() == 0 ==> r == FragmentStep::Skipped && *final(full_text) == *old(full_text)
            && *final(state) == *old(state),
        text@.len() > 0 ==> {
            &&& final(full_text)@ == old(full_text)@ + text@
            &&& (r == FragmentStep::Appended) == (old(state).request_generation == generation
                && old(state).is_loading)
            &&& r != FragmentStep::Skipped
        },
        r == FragmentStep::Appended ==> *final(state) == (AppState {
            streaming_response: final(state).streaming_response,
            ..*old(state)
        }) && final(state).streaming_response@ == old(state).streaming_response@ + text@,
        r != FragmentStep::Appended ==> *final(state) == *old(state),
        old(state).well_formed() ==> final(state).well_formed(),
{
    if text.unicode_len() == 0 {
        return FragmentStep::Skipped;
    }
    full_text.append(text);
    if state.append_chunk(generation, text) {
        FragmentStep::Appended
    } else {
        FragmentStep::Cancelled
    }
}

} // verus!
