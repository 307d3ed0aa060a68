use vstd::prelude::*;
use vstd::string::*;
use serde_json::Value;
use crate::prompts::{CLOSING, EMAIL_BLOCK, MEETING_BLOCK, SCHEMA, SMART_NOTE_BLOCK, TASKS_BLOCK};

verus! {

#[verifier::external_type_specification]
#[verifier::external_body]
pub struct ExJsonValue(Value);

#[verifier::external_type_specification]
#[verifier::external_body]
pub struct ExJsonError(serde_json::Error);

/// Unicode's White_Space property, the whitespace that `str::trim` removes.
pub open spec fn is_white_space(c: char) -> bool {
    let n = c as u32;
    ||| 0x09 <= n <= 0x0D
    ||| n == 0x20
    ||| n == 0x85
    ||| n == 0xA0
    ||| n == 0x1680
    ||| 0x2000 <= n <= 0x200A
    ||| n == 0x2028
    ||| n == 0x2029
    ||| n == 0x202F
    ||| n == 0x205F
    ||| n == 0x3000
}

/// Empty once whitespace is trimmed away.
pub open spec fn is_blank(s: Seq<char>) -> bool {
    forall|k: int| 0 <= k < s.len() ==> is_white_space(#[trigger] s[k])
}

/// `t` is `s` without its leading and trailing whitespace.
pub open spec fn is_trim_of(s: Seq<char>, t: Seq<char>) -> bool {
    &&& exists|i: int, j: int|
        0 <= i <= j <= s.len() && t == s.subrange(i, j) && (forall|k: int|
            0 <= k < i ==> is_white_space(#[trigger] s[k])) && (forall|k: int|
            j <= k < s.len() ==> is_white_space(#[trigger] s[k]))
    &&& t.len() > 0 ==> !is_white_space(t[0]) && !is_white_space(t[t.len() - 1])
}

/// Relies on `str::trim`: the result is the input without its leading and
/// trailing White_Space characters.
#[verifier::external_body]
fn trim_str(s: &str) -> (r: &str)
    ensures
        is_trim_of(s@, r@),
{
    s.trim()
}

/// Whether the text holds nothing but whitespace.
pub fn blank(s: &str) -> (r: bool)
    ensures
        r == is_blank(s@),
{
    let t = trim_str(s);
    let r = t.is_empty();
    proof {
        if !r {
            let (i, j) = choose|i: int, j: int|
                0 <= i <= j <= s@.len() && t@ == s@.subrange(i, j) && (forall|k: int|
                    0 <= k < i ==> is_white_space(#[trigger] s@[k])) && (forall|k: int|
                    j <= k < s@.len() ==> is_white_space(#[trigger] s@[k]));
            assert(t@[0] == s@[i]);
            assert(!is_white_space(s@[i]));
        }
    }
    r
}

/// The output styles the remote model can be asked for.
#[derive(Clone, Copy, Debug, PartialEq, Eq, Structural)]
pub enum Mode {
    SmartNote,
    Tasks,
    MeetingMinutes,
    Email,
}

/// The mode a tag selects: an exact match on one of the four known tags,
/// anything else falls back to the smart note.
pub open spec fn mode_of(tag: Seq<char>) -> Mode {
    if tag == "tasks"@ {
        Mode::Tasks
    } else if tag == "meeting_minutes"@ {
        Mode::MeetingMinutes
    } else if tag == "email"@ {
        Mode::Email
    } else {
        Mode::SmartNote
    }
}

/// The instruction block of a mode.
pub open spec fn mode_block(m: Mode) -> Seq<char> {
    match m {
        Mode::SmartNote => SMART_NOTE_BLOCK@,
        Mode::Tasks => TASKS_BLOCK@,
        Mode::MeetingMinutes => MEETING_BLOCK@,
        Mode::Email => EMAIL_BLOCK@,
    }
}

/// The system instruction sent for a mode tag.
pub open spec fn system_text(tag: Seq<char>) -> Seq<char> {
    SCHEMA@ + "\n"@ + mode_block(mode_of(tag)) + "\n"@ + CLOSING@
}

/// Select the mode for a tag.
pub fn mode_from_tag(tag: &str) -> (r: Mode)
    ensures
        r == mode_of(tag@),
{
    let t = tag.to_owned();
    if t == String::from_str("tasks") {
        Mode::Tasks
    } else if t == String::from_str("meeting_minutes") {
        Mode::MeetingMinutes
    } else if t == String::from_str("email") {
        Mode::Email
    } else {
        Mode::SmartNote
    }
}

/// The instruction block of a mode.
pub fn block_of(m: Mode) -> (r: &'static str)
    ensures
        r@ == mode_block(m),
{
    match m {
        Mode::SmartNote => SMART_NOTE_BLOCK,
        Mode::Tasks => TASKS_BLOCK,
        Mode::MeetingMinutes => MEETING_BLOCK,
        Mode::Email => EMAIL_BLOCK,
    }
}

/// Compose the system instruction: schema preamble, mode block, closing directive.
pub fn system_prompt(tag: &str) -> (r: String)
    ensures
        r@ == system_text(tag@),
{
    let mut r = String::from_str(SCHEMA);
    r.append("\n");
    r.append(block_of(mode_from_tag(tag)));
    r.append("\n");
    r.append(CLOSING);
    r
}

/// Model asked for completions.
pub const MODEL: &'static str = "gpt-4o-mini";

/// Remote completion endpoint.
pub const ENDPOINT: &'static str = "https://api.openai.com/v1/chat/completions";

/// What goes out in the single completion request: the bearer credential,
/// the model, and the two turns. The transport adds the fixed sampling
/// temperature and asks for a JSON object.
#[derive(Debug)]
pub struct CompletionRequest {
    pub api_key: String,
    pub model: String,
    pub system: String,
    pub user: String,
}

/// Why an enrichment failed.
#[derive(Debug)]
pub enum EnrichError {
    /// The API credential is blank.
    MissingApiKey,
    /// The text to enrich is blank.
    MissingText,
    /// The request did not get through; holds the transport's message.
    Transport(String),
    /// The endpoint answered with a non-success status; holds the rendered body.
    Remote(String),
}

impl EnrichError {
    /// Human-readable message for the caller.
    pub fn message(&self) -> (r: String)
        ensures
            r@ == match self {
                EnrichError::MissingApiKey => "API-Key fehlt. Bitte in den Einstellungen eintragen."@,
                EnrichError::MissingText => "Kein Transkript vorhanden."@,
                EnrichError::Transport(m) => m@,
                EnrichError::Remote(body) => "OpenAI Fehler: "@ + body@,
            },
    {
        match self {
            EnrichError::MissingApiKey => String::from_str(
                "API-Key fehlt. Bitte in den Einstellungen eintragen.",
            ),
            EnrichError::MissingText => String::from_str("Kein Transkript vorhanden."),
            EnrichError::Transport(m) => m.clone(),
            EnrichError::Remote(body) => {
                let mut r = String::from_str("OpenAI Fehler: ");
                r.append(body.as_str());
                r
            },
        }
    }
}

/// Validate the inputs and build the request: a blank credential or a blank
/// text is refused before anything is sent.
pub fn prepare_request(api_key: &str, text: &str, mode: &str) -> (r: Result<
    CompletionRequest,
    EnrichError,
>)
    ensures
        is_blank(api_key@) ==> r matches Err(EnrichError::MissingApiKey),
        !is_blank(api_key@) && is_blank(text@) ==> r matches Err(EnrichError::MissingText),
        !is_blank(api_key@) && !is_blank(text@) ==> (r matches Ok(req) && req.api_key@ == api_key@
            && req.model@ == MODEL@ && req.system@ == system_text(mode@) && req.user@ == text@),
{
    if blank(api_key) {
        return Err(EnrichError::MissingApiKey);
    }
    if blank(text) {
        return Err(EnrichError::MissingText);
    }
    Ok(
        CompletionRequest {
            api_key: api_key.to_owned(),
            model: String::from_str(MODEL),
            system: system_prompt(mode),
            user: text.to_owned(),
        },
    )
}

/// What `serde_json` decodes a text into: `None` where it refuses the text.
pub uninterp spec fn json_decode(s: Seq<char>) -> Option<Value>;

/// Relies on `serde_json::from_str::<Value>`: the outcome depends on the text
/// alone, and `{}` is a valid document.
#[verifier::external_body]
fn decode_json(text: &str) -> (r: Result<Value, serde_json::Error>)
    ensures
        match r {
            Ok(v) => json_decode(text@) == Some(v),
            Err(_) => json_decode(text@) is None,
        },
        text@ == "{}"@ ==> r is Ok,
{
    serde_json::from_str::<Value>(text)
}

/// The member under `key` of a JSON object; `None` for a missing key or a non-object.
pub uninterp spec fn json_get_key(v: Value, key: Seq<char>) -> Option<Value>;

/// Relies on `serde_json::Value::get` with a key: the member of an object, if present.
#[verifier::external_body]
fn json_member<'a>(v: &'a Value, key: &str) -> (r: Option<&'a Value>)
    ensures
        match r {
            Some(x) => json_get_key(*v, key@) == Some(*x),
            None => json_get_key(*v, key@) is None,
        },
{
    v.get(key)
}

/// The element at position `i` of a JSON array; `None` out of range or for a non-array.
pub uninterp spec fn json_get_index(v: Value, i: usize) -> Option<Value>;

/// Relies on `serde_json::Value::get` with a position: the element of an array, if present.
#[verifier::external_body]
fn json_element<'a>(v: &'a Value, i: usize) -> (r: Option<&'a Value>)
    ensures
        match r {
            Some(x) => json_get_index(*v, i) == Some(*x),
            None => json_get_index(*v, i) is None,
        },
{
    v.get(i)
}

/// The text of a JSON string value; `None` for any other kind of value.
pub uninterp spec fn json_string_of(v: Value) -> Option<Seq<char>>;

/// Relies on `serde_json::Value::as_str`: the text of a JSON string value.
#[verifier::external_body]
fn json_as_str<'a>(v: &'a Value) -> (r: Option<&'a str>)
    ensures
        match r {
            Some(t) => json_string_of(*v) == Some(t@),
            None => json_string_of(*v) is None,
        },
{
    v.as_str()
}

/// The compact JSON text of a value.
pub uninterp spec fn json_rendering(v: Value) -> Seq<char>;

/// Relies on serde_json's `Display` for `Value`: the compact JSON text.
#[verifier::external_body]
fn render_json(v: &Value) -> (r: String)
    ensures
        r@ == json_rendering(*v),
{
    v.to_string()
}

/// Relies on `serde_json::Map::new`: an empty JSON object, the value that
/// `{}` decodes into.
#[verifier::external_body]
fn empty_json_object() -> (r: Value)
    ensures
        json_decode("{}"@) == Some(r),
{
    Value::Object(serde_json::Map::new())
}

/// The structured note decoded from the model's answer.
#[derive(Debug)]
pub enum NoteDocument {
    /// The answer decoded as JSON, taken as it is (fields may be missing).
    Parsed(Value),
    /// The answer was not JSON: the note is the empty object.
    Empty,
}

impl NoteDocument {
    /// The note as a JSON value; `Empty` becomes `{}`.
    pub fn into_value(self) -> (r: Value)
        ensures
            match self {
                NoteDocument::Parsed(v) => r == v,
                NoteDocument::Empty => json_decode("{}"@) == Some(r),
            },
    {
        match self {
            NoteDocument::Parsed(v) => v,
            NoteDocument::Empty => empty_json_object(),
        }
    }
}

/// HTTP status codes 200 to 299 mean success.
pub open spec fn is_success_status(status: u16) -> bool {
    200 <= status < 300
}

/// Whether an HTTP status means success.
pub fn status_is_success(status: u16) -> (r: bool)
    ensures
        r == is_success_status(status),
{
    200 <= status && status < 300
}

/// The text at `choices[0].message.content` of a reply, if it is a string.
pub open spec fn completion_text(reply: Value) -> Option<Seq<char>> {
    match json_get_key(reply, "choices"@) {
        Some(choices) => match json_get_index(choices, 0) {
            Some(first) => match json_get_key(first, "message"@) {
                Some(message) => match json_get_key(message, "content"@) {
                    Some(content) => json_string_of(content),
                    None => None,
                },
                None => None,
            },
            None => None,
        },
        None => None,
    }
}

/// The text of the first completion's message (`choices[0].message.content`),
/// if the reply has one and it is a string.
pub fn completion_content(reply: &Value) -> (r: Option<String>)
    ensures
        match r {
            Some(t) => completion_text(*reply) == Some(t@),
            None => completion_text(*reply) is None,
        },
{
    let choices = match json_member(reply, "choices") {
        Some(c) => c,
        None => return None,
    };
    let first = match json_element(choices, 0) {
        Some(f) => f,
        None => return None,
    };
    let message = match json_member(first, "message") {
        Some(m) => m,
        None => return None,
    };
    match json_member(message, "content") {
        Some(c) => match json_as_str(c) {
            Some(t) => Some(t.to_owned()),
            None => None,
        },
        None => None,
    }
}

/// The text that is decoded: the content, or `{}` when there is none.
pub open spec fn content_text(content: Option<Seq<char>>) -> Seq<char> {
    match content {
        Some(c) => c,
        None => "{}"@,
    }
}

/// The note for a content: its decoded value, or the empty note where it is
/// not JSON.
pub open spec fn note_of(content: Option<Seq<char>>) -> NoteDocument {
    match json_decode(content_text(content)) {
        Some(v) => NoteDocument::Parsed(v),
        None => NoteDocument::Empty,
    }
}

/// The view of an optional text.
pub open spec fn opt_text(content: Option<&str>) -> Option<Seq<char>> {
    match content {
        Some(c) => Some(c@),
        None => None,
    }
}

/// Decode the model's content leniently: missing content counts as `{}`,
/// and text that is not JSON gives the empty note rather than an error.
pub fn note_from_content(content: Option<&str>) -> (r: NoteDocument)
    ensures
        r == note_of(opt_text(content)),
        content is None ==> (r matches NoteDocument::Parsed(v) && json_decode("{}"@) == Some(v)),
{
    let text = match content {
        Some(c) => c,
        None => "{}",
    };
    match decode_json(text) {
        Ok(v) => NoteDocument::Parsed(v),
        Err(_) => NoteDocument::Empty,
    }
}

/// The outcome of an enrichment once the endpoint has answered with `status`,
/// with `rendered` the reply's JSON text and `content` its first completion's
/// text: a non-success status is a remote error that carries the reply;
/// otherwise the note comes from the content, leniently decoded.
pub fn outcome_of_reply(status: u16, rendered: String, content: Option<&str>) -> (r: Result<
    NoteDocument,
    EnrichError,
>)
    ensures
        !is_success_status(status) ==> (r matches Err(EnrichError::Remote(b)) && b@ == rendered@),
        is_success_status(status) ==> r == Ok::<NoteDocument, EnrichError>(
            note_of(opt_text(content)),
        ),
{
    if !status_is_success(status) {
        return Err(EnrichError::Remote(rendered));
    }
    Ok(note_from_content(content))
}

/// Finish an enrichment from the endpoint's status and decoded reply: a
/// non-success status fails with the reply's JSON text; otherwise the note
/// comes from `choices[0].message.content`, leniently decoded.
pub fn finish_enrichment(status: u16, body: &Value) -> (r: Result<NoteDocument, EnrichError>)
    ensures
        !is_success_status(status) ==> (r matches Err(EnrichError::Remote(b)) && b@
            == json_rendering(*body)),
        is_success_status(status) ==> r == Ok::<NoteDocument, EnrichError>(
            note_of(completion_text(*body)),
        ),
{
    if !status_is_success(status) {
        return outcome_of_reply(status, render_json(body), None);
    }
    match completion_content(body) {
        Some(c) => outcome_of_reply(status, String::new(), Some(c.as_str())),
        None => outcome_of_reply(status, String::new(), None),
    }
}

} // verus!
