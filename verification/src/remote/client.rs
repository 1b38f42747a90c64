//! Client side of remote transcription: connection descriptors, the
//! endpoint URLs they derive, the duration- and source-aware timeout
//! policy, and the classification of server responses.

use vstd::prelude::*;

use crate::text::spec_dec_seq;
use crate::text::u64_to_string;

verus! {

/// Where a piece of audio came from; transcription requests for live
/// dictation get a capped timeout, uploads an uncapped one.
#[derive(Debug, Clone, Copy, PartialEq, Eq, Structural)]
pub enum TranscriptionSource {
    /// Live recording from the microphone.
    LiveRecording,
    /// An uploaded audio or video file.
    Upload,
}

/// `host:port`.
pub open spec fn spec_host_port(host: Seq<char>, port: u16) -> Seq<char> {
    host + ":"@ + spec_dec_seq(port as int)
}

/// `http://host:port/api/v1/status`.
pub open spec fn spec_status_url(host: Seq<char>, port: u16) -> Seq<char> {
    "http://"@ + spec_host_port(host, port) + "/api/v1/status"@
}

/// `http://host:port/api/v1/transcribe`.
pub open spec fn spec_transcribe_url(host: Seq<char>, port: u16) -> Seq<char> {
    "http://"@ + spec_host_port(host, port) + "/api/v1/transcribe"@
}

/// Connection configuration for a remote transcription server.
#[derive(Debug, Clone)]
pub struct RemoteServerConnection {
    /// Hostname or IP address.
    pub host: String,
    /// Port number.
    pub port: u16,
    /// Optional shared secret for authentication.
    pub password: Option<String>,
}

impl RemoteServerConnection {
    /// Create a new remote server connection.
    pub fn new(host: String, port: u16, password: Option<String>) -> (r: Self)
        ensures
            r.host == host,
            r.port == port,
            r.password == password,
    {
        Self { host, port, password }
    }

    fn base_url(&self) -> (r: String)
        ensures
            r@ == "http://"@ + spec_host_port(self.host@, self.port),
    {
        let mut r = String::new();
        r.append("http://");
        r.append(self.host.as_str());
        r.append(":");
        r.append(u64_to_string(self.port as u64).as_str());
        assert(r@ =~= "http://"@ + spec_host_port(self.host@, self.port));
        r
    }

    /// The URL of the status endpoint.
    pub fn status_url(&self) -> (r: String)
        ensures
            r@ == spec_status_url(self.host@, self.port),
    {
        let mut r = self.base_url();
        r.append("/api/v1/status");
        assert(r@ =~= spec_status_url(self.host@, self.port));
        r
    }

    /// The URL of the transcribe endpoint.
    pub fn transcribe_url(&self) -> (r: String)
        ensures
            r@ == spec_transcribe_url(self.host@, self.port),
    {
        let mut r = self.base_url();
        r.append("/api/v1/transcribe");
        assert(r@ =~= spec_transcribe_url(self.host@, self.port));
        r
    }

    /// A display name for this connection: `host:port`.
    pub fn display_name(&self) -> (r: String)
        ensures
            r@ == spec_host_port(self.host@, self.port),
    {
        let mut r = String::new();
        r.append(self.host.as_str());
        r.append(":");
        r.append(u64_to_string(self.port as u64).as_str());
        assert(r@ =~= spec_host_port(self.host@, self.port));
        r
    }
}

/// Request to transcribe audio remotely.
#[derive(Debug, Clone)]
pub struct TranscriptionRequest {
    /// Raw audio data (WAV format).
    pub audio_data: Vec<u8>,
    /// Source of the audio; decides the timeout policy.
    pub source: TranscriptionSource,
}

impl TranscriptionRequest {
    /// Create a new transcription request.
    pub fn new(audio_data: Vec<u8>, source: TranscriptionSource) -> (r: Self)
        ensures
            r.audio_data == audio_data,
            r.source == source,
    {
        Self { audio_data, source }
    }
}

/// Timeout for a live recording: 30 s base plus twice the audio
/// duration, capped at two minutes.
pub open spec fn live_timeout_ms(audio_duration_ms: u64) -> int {
    if 30_000 + 2 * (audio_duration_ms as int) <= 120_000 {
        30_000 + 2 * (audio_duration_ms as int)
    } else {
        120_000
    }
}

/// Timeout for an upload: 60 s base plus three times the audio
/// duration, with no cap.
pub open spec fn upload_timeout_ms(audio_duration_ms: u64) -> int {
    60_000 + 3 * (audio_duration_ms as int)
}

pub open spec fn timeout_ms_spec(audio_duration_ms: u64, source: TranscriptionSource) -> int {
    match source {
        TranscriptionSource::LiveRecording => live_timeout_ms(audio_duration_ms),
        TranscriptionSource::Upload => upload_timeout_ms(audio_duration_ms),
    }
}

/// Calculate the request timeout in milliseconds from the audio
/// duration and its source.  Live recordings are capped at two minutes
/// so interactive dictation cannot hang the UI; uploads scale without
/// an upper bound.
pub fn calculate_timeout_ms(audio_duration_ms: u64, source: TranscriptionSource) -> (r: u64)
    requires
        source == TranscriptionSource::Upload ==> 3 * (audio_duration_ms as int) + 60_000
            <= u64::MAX,
    ensures
        r == timeout_ms_spec(audio_duration_ms, source),
{
    match source {
        TranscriptionSource::LiveRecording => {
            if audio_duration_ms >= 45_000 {
                120_000
            } else {
                30_000 + audio_duration_ms * 2
            }
        },
        TranscriptionSource::Upload => 60_000 + audio_duration_ms * 3,
    }
}

} // verus!
