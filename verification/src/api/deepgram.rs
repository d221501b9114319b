//! The Deepgram speech-to-text request and the reading of its response.
//!
//! The request sends raw PCM (linear16 at 16 kHz) with the model and, unless
//! the language is "auto", the language as query parameters. A response is
//! accepted when its status is a success; the transcript is
//! `results.channels[0].alternatives[0].transcript`, or empty when that is
//! missing or not a string.

use vstd::prelude::*;

use crate::text::{decimal, str_eq, to_decimal};

verus! {

/// The endpoint of the Deepgram transcription API.
pub const DEEPGRAM_API_URL: &'static str = "https://api.deepgram.com/v1/listen";

/// The Deepgram request settings.
#[derive(Debug, Clone)]
pub struct DeepgramClient {
    api_key: String,
    model: String,
    language: String,
}

/// A JSON document, holding what is read of a response. Numbers carry no
/// value: nothing reads them. Object members keep their order; keys are
/// looked up by their first occurrence.
#[derive(Debug)]
pub enum Json {
    Null,
    Bool(bool),
    Number,
    Str(String),
    Array(Vec<Json>),
    Object(Vec<(String, Json)>),
}

/// Why a transcription request failed.
#[derive(Debug, Clone, Copy, PartialEq, Eq, Structural)]
pub enum DeepgramError {
    /// The service answered with a status that is not a success.
    Status(u16),
}

/// The reason phrase that `http`'s `StatusCode::canonical_reason` gives for a
/// status code (e.g. "Unauthorized" for 401), if it has one.
pub uninterp spec fn status_reason(code: u16) -> Option<Seq<char>>;

/// Calls `StatusCode::from_u16` and then `StatusCode::canonical_reason`.
/// `from_u16` accepts exactly the codes 100 to 999, so outside them there is
/// no reason; within them the phrase depends on the code alone and is named
/// `status_reason`. The table of phrases is not stated.
#[verifier::external_body]
fn canonical_reason(code: u16) -> (r: Option<String>)
    ensures
        !(100 <= code <= 999) ==> r is None,
        match r {
            Some(p) => status_reason(code) == Some(p@),
            None => status_reason(code) is None,
        },
{
    reqwest::StatusCode::from_u16(code).ok().and_then(|c| c.canonical_reason()).map(|p| p.to_owned())
}

/// How a status shows in a message, as `StatusCode` displays it: the code,
/// a space, and the reason phrase or `<unknown status code>`.
pub open spec fn status_text_spec(code: u16) -> Seq<char> {
    decimal(code as nat) + " "@ + match status_reason(code) {
        Some(p) => p,
        None => "<unknown status code>"@,
    }
}

/// How a status shows in a message, e.g. `401 Unauthorized`.
pub fn status_text(code: u16) -> (r: String)
    ensures
        r@ == status_text_spec(code),
{
    let mut r = to_decimal(code as u64);
    r.append(" ");
    match canonical_reason(code) {
        Some(p) => r.append(p.as_str()),
        None => r.append("<unknown status code>"),
    }
    r
}

impl DeepgramError {
    /// The message that reports this error, given the body of the response.
    pub fn message(&self, body: &str) -> (r: String)
        ensures
            r@ == match self {
                DeepgramError::Status(code) => "Deepgram API error "@ + status_text_spec(*code)
                    + ": "@ + body@,
            },
    {
        match self {
            DeepgramError::Status(code) => {
                let mut r = String::from_str("Deepgram API error ");
                let t = status_text(*code);
                r.append(t.as_str());
                r.append(": ");
                r.append(body);
                r
            },
        }
    }
}

/// The member of an object under a key, from a position on.
pub open spec fn lookup_from(members: Seq<(String, Json)>, key: Seq<char>, i: int) -> Option<Json>
    decreases members.len() - i,
{
    if i < 0 || i >= members.len() {
        None
    } else if members[i].0@ == key {
        Some(members[i].1)
    } else {
        lookup_from(members, key, i + 1)
    }
}

/// Indexing a JSON value by a key: the member of an object, nothing for
/// anything else.
pub open spec fn json_key(j: Json, key: Seq<char>) -> Option<Json> {
    match j {
        Json::Object(m) => lookup_from(m@, key, 0),
        _ => None,
    }
}

/// Indexing a JSON value by a position: the element of an array, nothing for
/// anything else.
pub open spec fn json_index(j: Json, i: int) -> Option<Json> {
    match j {
        Json::Array(v) => if 0 <= i < v@.len() {
            Some(v@[i])
        } else {
            None
        },
        _ => None,
    }
}

pub open spec fn opt_key(o: Option<Json>, key: Seq<char>) -> Option<Json> {
    match o {
        Some(j) => json_key(j, key),
        None => None,
    }
}

pub open spec fn opt_index(o: Option<Json>, i: int) -> Option<Json> {
    match o {
        Some(j) => json_index(j, i),
        None => None,
    }
}

/// The transcript of a response: the string at
/// `results.channels[0].alternatives[0].transcript`, or empty.
pub open spec fn transcript_spec(j: Json) -> Seq<char> {
    let t = opt_key(
        opt_index(opt_key(opt_index(opt_key(json_key(j, "results"@), "channels"@), 0), "alternatives"@), 0),
        "transcript"@,
    );
    match t {
        Some(Json::Str(s)) => s@,
        _ => seq![],
    }
}

/// The request URL for a model and language.
pub open spec fn request_url_spec(model: Seq<char>, language: Seq<char>) -> Seq<char> {
    DEEPGRAM_API_URL@ + "?model="@ + model + "&encoding=linear16&sample_rate=16000&punctuate=false"@
        + if language == "auto"@ {
        seq![]
    } else {
        "&language="@ + language
    }
}

/// Looks a key up in a JSON object.
pub fn json_get_key<'a>(j: &'a Json, key: &str) -> (r: Option<&'a Json>)
    ensures
        match r {
            Some(x) => json_key(*j, key@) == Some(*x),
            None => json_key(*j, key@) is None,
        },
{
    match j {
        Json::Object(members) => {
            let n: usize = members.len();
            let mut i: usize = 0;
            while i < n
                invariant
                    n == members@.len(),
                    i <= n,
                    lookup_from(members@, key@, i as int) == lookup_from(members@, key@, 0),
                    json_key(*j, key@) == lookup_from(members@, key@, 0),
                decreases n - i,
            {
                if str_eq(members[i].0.as_str(), key) {
                    return Some(&members[i].1);
                }
                i = i + 1;
            }
            None
        },
        _ => None,
    }
}

/// Looks a position up in a JSON array.
pub fn json_get_index<'a>(j: &'a Json, i: usize) -> (r: Option<&'a Json>)
    ensures
        match r {
            Some(x) => json_index(*j, i as int) == Some(*x),
            None => json_index(*j, i as int) is None,
        },
{
    match j {
        Json::Array(v) => if i < v.len() {
            Some(&v[i])
        } else {
            None
        },
        _ => None,
    }
}

fn opt_get_key<'a>(o: Option<&'a Json>, key: &str) -> (r: Option<&'a Json>)
    ensures
        match r {
            Some(x) => opt_key(opt_deref(o), key@) == Some(*x),
            None => opt_key(opt_deref(o), key@) is None,
        },
{
    match o {
        Some(j) => json_get_key(j, key),
        None => None,
    }
}

fn opt_get_index<'a>(o: Option<&'a Json>, i: usize) -> (r: Option<&'a Json>)
    ensures
        match r {
            Some(x) => opt_index(opt_deref(o), i as int) == Some(*x),
            None => opt_index(opt_deref(o), i as int) is None,
        },
{
    match o {
        Some(j) => json_get_index(j, i),
        None => None,
    }
}

pub open spec fn opt_deref(o: Option<&Json>) -> Option<Json> {
    match o {
        Some(j) => Some(*j),
        None => None,
    }
}

/// The transcript of a Deepgram response.
pub fn transcript_from_json(j: &Json) -> (r: String)
    ensures
        r@ == transcript_spec(*j),
{
    let results = json_get_key(j, "results");
    let channels = opt_get_key(results, "channels");
    let channel = opt_get_index(channels, 0);
    let alternatives = opt_get_key(channel, "alternatives");
    let alternative = opt_get_index(alternatives, 0);
    let transcript = opt_get_key(alternative, "transcript");
    match transcript {
        Some(Json::Str(s)) => s.clone(),
        _ => String::new(),
    }
}

/// Whether an HTTP status is a success (200 to 299).
pub fn is_success_status(status: u16) -> (r: bool)
    ensures
        r == (200 <= status <= 299),
{
    200 <= status && status <= 299
}

/// Accepts a response status, or reports it as the error.
pub fn check_status(status: u16) -> (r: Result<(), DeepgramError>)
    ensures
        r is Ok <==> 200 <= status <= 299,
        r is Err ==> r == Err::<(), DeepgramError>(DeepgramError::Status(status)),
{
    if is_success_status(status) {
        Ok(())
    } else {
        Err(DeepgramError::Status(status))
    }
}

/// The transcript of a response, given its status and, for a success, its
/// JSON body.
pub fn transcript_from_response(status: u16, body: &Json) -> (r: Result<String, DeepgramError>)
    ensures
        match r {
            Ok(t) => 200 <= status <= 299 && t@ == transcript_spec(*body),
            Err(e) => !(200 <= status <= 299) && e == DeepgramError::Status(status),
        },
{
    match check_status(status) {
        Ok(()) => Ok(transcript_from_json(body)),
        Err(e) => Err(e),
    }
}

impl DeepgramClient {
    pub closed spec fn api_key_spec(&self) -> Seq<char> {
        self.api_key@
    }

    pub closed spec fn model_spec(&self) -> Seq<char> {
        self.model@
    }

    pub closed spec fn language_spec(&self) -> Seq<char> {
        self.language@
    }

    pub fn new(api_key: String, model: String, language: String) -> (r: Self)
        ensures
            r.api_key_spec() == api_key@,
            r.model_spec() == model@,
            r.language_spec() == language@,
    {
        DeepgramClient { api_key, model, language }
    }

    /// The URL that a transcription is posted to.
    pub fn request_url(&self) -> (r: String)
        ensures
            r@ == request_url_spec(self.model_spec(), self.language_spec()),
    {
        let mut url = String::from_str(DEEPGRAM_API_URL);
        url.append("?model=");
        url.append(self.model.as_str());
        url.append("&encoding=linear16&sample_rate=16000&punctuate=false");
        if !str_eq(self.language.as_str(), "auto") {
            url.append("&language=");
            url.append(self.language.as_str());
        }
        url
    }

    /// The value of the `Authorization` header.
    pub fn authorization(&self) -> (r: String)
        ensures
            r@ == "Token "@ + self.api_key_spec(),
    {
        let mut r = String::from_str("Token ");
        r.append(self.api_key.as_str());
        r
    }

    /// The value of the `Content-Type` header: raw bytes.
    pub fn content_type(&self) -> (r: String)
        ensures
            r@ == "application/octet-stream"@,
    {
        String::from_str("application/octet-stream")
    }
}

/// Every language other than "auto" is sent: the request URL is the base
/// query followed by `&language=` and that language. Only "auto" leaves the
/// parameter out, so the service detects the language itself.
pub proof fn lemma_request_url_language(model: Seq<char>, language: Seq<char>)
    ensures
        language != "auto"@ ==> request_url_spec(model, language) == DEEPGRAM_API_URL@
            + "?model="@ + model + "&encoding=linear16&sample_rate=16000&punctuate=false"@
            + "&language="@ + language,
        request_url_spec(model, "auto"@) == DEEPGRAM_API_URL@ + "?model="@ + model
            + "&encoding=linear16&sample_rate=16000&punctuate=false"@,
{
    assert(request_url_spec(model, "auto"@) =~= DEEPGRAM_API_URL@ + "?model="@ + model
        + "&encoding=linear16&sample_rate=16000&punctuate=false"@);
    if language != "auto"@ {
        assert(request_url_spec(model, language) =~= DEEPGRAM_API_URL@ + "?model="@ + model
            + "&encoding=linear16&sample_rate=16000&punctuate=false"@ + "&language="@
            + language);
    }
}

/// Two requests for the same model and different languages, neither of them
/// "auto", go to different URLs.
pub proof fn lemma_request_url_distinguishes_languages(model: Seq<char>, a: Seq<char>, b: Seq<char>)
    requires
        a != "auto"@,
        b != "auto"@,
        a != b,
    ensures
        request_url_spec(model, a) != request_url_spec(model, b),
{
    lemma_request_url_language(model, a);
    lemma_request_url_language(model, b);
    let prefix = DEEPGRAM_API_URL@ + "?model="@ + model
        + "&encoding=linear16&sample_rate=16000&punctuate=false"@ + "&language="@;
    if request_url_spec(model, a) == request_url_spec(model, b) {
        assert((prefix + a).subrange(prefix.len() as int, (prefix + a).len() as int) =~= a);
        assert((prefix + b).subrange(prefix.len() as int, (prefix + b).len() as int) =~= b);
        assert(prefix + a =~= request_url_spec(model, a));
        assert(prefix + b =~= request_url_spec(model, b));
    }
}

} // verus!
