//! Protocol layer of the sharing server: the decisions behind the two
//! routes (status and transcribe) and the shared-secret authentication
//! in front of them.  The surrounding HTTP plumbing hands the request
//! pieces in as plain values and turns the replies into wire responses.

use vstd::prelude::*;
use vstd::string::*;

use crate::remote::server::ErrorResponse;
use crate::remote::server::StatusResponse;
use crate::remote::server::TranscribeResponse;
use crate::remote::server::opt_string_view;
use crate::remote::server::password_accepted;

verus! {

/// The authentication header both routes check.
pub fn auth_header_name() -> (r: &'static str)
    ensures
        r@ == "X-VoiceTypr-Key"@,
{
    "X-VoiceTypr-Key"
}

/// What the protocol layer needs from the rest of the application:
/// the identity being served and the bridge that turns audio bytes
/// into text.
pub trait ServerContext {
    fn get_model_name(&self) -> String;

    fn get_server_name(&self) -> String;

    fn get_password(&self) -> Option<String>;

    fn transcribe(&self, audio_data: &[u8]) -> Result<TranscribeResponse, String>;
}

/// Check a request's credential against the configured password.
/// Accepted exactly when no password is configured, or the provided
/// header equals it.
pub fn auth_ok(required: &Option<String>, provided: &Option<String>) -> (r: bool)
    ensures
        r == password_accepted(opt_string_view(*required), opt_string_view(*provided)),
{
    match required {
        Option::None => true,
        Option::Some(req) => match provided {
            Option::None => false,
            Option::Some(p) => p.eq(req),
        },
    }
}

/// Reply of the status route.
#[derive(Debug, Clone, PartialEq)]
pub enum StatusReply {
    /// Authorized: the served identity, as HTTP 200.
    Granted(StatusResponse),
    /// Rejected credential, as HTTP 401.
    Unauthorized(ErrorResponse),
}

impl StatusReply {
    /// The HTTP status code this reply is sent with.
    pub fn http_status(&self) -> (r: u16)
        ensures
            self is Granted ==> r == 200,
            self is Unauthorized ==> r == 401,
    {
        match self {
            StatusReply::Granted(_) => 200,
            StatusReply::Unauthorized(_) => 401,
        }
    }
}

/// Decide the status route: reject a bad credential with
/// `unauthorized`, else report the served model and server identity.
pub fn handle_status(
    model: String,
    server_name: String,
    version: String,
    required_password: &Option<String>,
    auth_key: &Option<String>,
) -> (r: StatusReply)
    ensures
        password_accepted(opt_string_view(*required_password), opt_string_view(*auth_key)) ==> (
        r matches StatusReply::Granted(resp) && resp.status@ == "ok"@ && resp.version == version
            && resp.model == model && resp.name == server_name),
        !password_accepted(opt_string_view(*required_password), opt_string_view(*auth_key)) ==> (
        r matches StatusReply::Unauthorized(e) && e.error@ == "unauthorized"@),
{
    if !auth_ok(required_password, auth_key) {
        StatusReply::Unauthorized(ErrorResponse { error: "unauthorized".to_owned() })
    } else {
        StatusReply::Granted(
            StatusResponse { status: "ok".to_owned(), version, model, name: server_name },
        )
    }
}

/// Reply of the transcribe route.
#[derive(Debug, Clone, PartialEq)]
pub enum TranscribeReply {
    /// The transcription, as HTTP 200.
    Completed(TranscribeResponse),
    /// Rejected credential, as HTTP 401.
    Unauthorized(ErrorResponse),
    /// Body is not audio, as HTTP 415.
    UnsupportedMediaType(ErrorResponse),
    /// The transcription bridge failed, as HTTP 500 with its message.
    Failed(ErrorResponse),
}

impl TranscribeReply {
    /// The HTTP status code this reply is sent with.
    pub fn http_status(&self) -> (r: u16)
        ensures
            self is Completed ==> r == 200,
            self is Unauthorized ==> r == 401,
            self is UnsupportedMediaType ==> r == 415,
            self is Failed ==> r == 500,
    {
        match self {
            TranscribeReply::Completed(_) => 200,
            TranscribeReply::Unauthorized(_) => 401,
            TranscribeReply::UnsupportedMediaType(_) => 415,
            TranscribeReply::Failed(_) => 500,
        }
    }
}

/// The content type announces audio: it starts with `audio/`.
pub open spec fn spec_is_audio_content_type(ct: Seq<char>) -> bool {
    ct.len() >= 6 && ct.subrange(0, 6) == "audio/"@
}

/// Whether a content type starts with `audio/`.
pub fn is_audio_content_type(content_type: &str) -> (r: bool)
    ensures
        r == spec_is_audio_content_type(content_type@),
{
    proof {
        reveal_strlit("audio/");
    }
    let n = content_type.unicode_len();
    if n < 6 {
        return false;
    }
    let r = content_type.get_char(0) == 'a' && content_type.get_char(1) == 'u'
        && content_type.get_char(2) == 'd' && content_type.get_char(3) == 'i'
        && content_type.get_char(4) == 'o' && content_type.get_char(5) == '/';
    proof {
        let ct = content_type@;
        let sub = ct.subrange(0, 6);
        assert(sub[0] == ct[0] && sub[1] == ct[1] && sub[2] == ct[2] && sub[3] == ct[3] && sub[4]
            == ct[4] && sub[5] == ct[5]);
        if r {
            assert(sub =~= "audio/"@);
        } else {
            assert(sub == "audio/"@ ==> (ct[0] == 'a' && ct[1] == 'u' && ct[2] == 'd' && ct[3]
                == 'i' && ct[4] == 'o' && ct[5] == '/'));
        }
    }
    r
}

/// Screen a transcribe request before any transcription work: a bad
/// credential is rejected first with `unauthorized`; then a content
/// type that does not announce audio is rejected with
/// `unsupported_media_type`.  `None` means the request may proceed to
/// the transcription bridge.
pub fn screen_transcribe_request(
    required_password: &Option<String>,
    auth_key: &Option<String>,
    content_type: &str,
) -> (r: Option<TranscribeReply>)
    ensures
        !password_accepted(opt_string_view(*required_password), opt_string_view(*auth_key)) ==> (
        r matches Some(rej) && rej matches TranscribeReply::Unauthorized(e) && e.error@
            == "unauthorized"@),
        password_accepted(opt_string_view(*required_password), opt_string_view(*auth_key))
            && !spec_is_audio_content_type(content_type@) ==> (r matches Some(rej)
            && rej matches TranscribeReply::UnsupportedMediaType(e) && e.error@
            == "unsupported_media_type"@),
        password_accepted(opt_string_view(*required_password), opt_string_view(*auth_key))
            && spec_is_audio_content_type(content_type@) ==> r is None,
{
    if !auth_ok(required_password, auth_key) {
        Option::Some(
            TranscribeReply::Unauthorized(ErrorResponse { error: "unauthorized".to_owned() }),
        )
    } else if !is_audio_content_type(content_type) {
        Option::Some(
            TranscribeReply::UnsupportedMediaType(
                ErrorResponse { error: "unsupported_media_type".to_owned() },
            ),
        )
    } else {
        Option::None
    }
}

/// Turn the transcription bridge's outcome into the route's reply:
/// success is passed through as HTTP 200, a failure becomes HTTP 500
/// carrying the bridge's message verbatim, never retried.
pub fn finish_transcribe(result: Result<TranscribeResponse, String>) -> (r: TranscribeReply)
    ensures
        result matches Ok(resp) ==> r == TranscribeReply::Completed(resp),
        result matches Err(msg) ==> (r matches TranscribeReply::Failed(e) && e.error == msg),
{
    match result {
        Result::Ok(resp) => TranscribeReply::Completed(resp),
        Result::Err(msg) => TranscribeReply::Failed(ErrorResponse { error: msg }),
    }
}

/// With no password configured, every request is accepted, whether or
/// not it carries the authentication header.
pub proof fn lemma_no_password_accepts_all(provided: Option<Seq<char>>)
    ensures
        password_accepted(Option::None, provided),
{
}

/// With a password configured, exactly the matching header is
/// accepted: a missing or different header is rejected.
pub proof fn lemma_password_exact_match(p: Seq<char>, provided: Option<Seq<char>>)
    ensures
        password_accepted(Option::Some(p), provided) <==> provided == Option::Some(p),
{
}

} // verus!
