//! Recording-side decisions: pill visibility, the cached recording
//! configuration and its freshness, the recording state names, the
//! engine selection, and the fallback-model choice.

use vstd::prelude::*;
use vstd::string::*;

use crate::text::is_prefix_of;
use vstd::utf8::encode_utf8;

verus! {

/// Payload of a toast shown above the pill.
#[derive(Debug, Clone, PartialEq)]
pub struct PillToastPayload {
    /// Sequence number, so a newer toast supersedes an older one.
    pub id: u64,
    /// Message shown to the user.
    pub message: String,
    /// How long the toast stays, in milliseconds.
    pub duration_ms: u64,
}

/// The pill is hidden when idle unless its mode is `always`.
pub fn should_hide_pill_when_idle(mode: &str) -> (r: bool)
    ensures
        r == (mode@ != "always"@),
{
    let owned = mode.to_owned();
    !owned.eq(&"always".to_owned())
}

/// The recording states the application moves through.
#[derive(Debug, Clone, Copy, PartialEq, Eq, Structural)]
pub enum RecordingState {
    Idle,
    Starting,
    Recording,
    Stopping,
    Transcribing,
    Error,
}

/// The wire name of a recording state.
pub fn recording_state_name(state: RecordingState) -> (r: &'static str)
    ensures
        state == RecordingState::Idle ==> r@ == "idle"@,
        state == RecordingState::Starting ==> r@ == "starting"@,
        state == RecordingState::Recording ==> r@ == "recording"@,
        state == RecordingState::Stopping ==> r@ == "stopping"@,
        state == RecordingState::Transcribing ==> r@ == "transcribing"@,
        state == RecordingState::Error ==> r@ == "error"@,
{
    match state {
        RecordingState::Idle => "idle",
        RecordingState::Starting => "starting",
        RecordingState::Recording => "recording",
        RecordingState::Stopping => "stopping",
        RecordingState::Transcribing => "transcribing",
        RecordingState::Error => "error",
    }
}

/// The current recording state as reported to the frontend.
#[derive(Debug, Clone, PartialEq)]
pub struct RecordingStateResponse {
    /// Wire name of the state.
    pub state: String,
    /// Message of the error state, when there is one.
    pub error: Option<String>,
}

impl RecordingStateResponse {
    /// Report a state with no error message attached.
    pub fn from_state(state: RecordingState) -> (r: Self)
        ensures
            r.error is None,
            state == RecordingState::Idle ==> r.state@ == "idle"@,
            state == RecordingState::Recording ==> r.state@ == "recording"@,
            state == RecordingState::Error ==> r.state@ == "error"@,
    {
        RecordingStateResponse {
            state: recording_state_name(state).to_owned(),
            error: Option::None,
        }
    }
}

/// How long a cached recording configuration stays fresh: five
/// minutes, in milliseconds.
pub const MAX_CACHE_AGE_MS: u64 = 300_000;

/// Recording-relevant settings, cached so the transcription flow does
/// not re-read the store; invalidated when settings change and when
/// stale.
#[derive(Debug, PartialEq)]
pub struct RecordingConfig {
    pub show_pill_widget: bool,
    /// `never`, `always`, or `when_recording`.
    pub pill_indicator_mode: String,
    pub ai_enabled: bool,
    pub ai_provider: String,
    pub ai_model: String,
    pub current_model: String,
    pub current_engine: String,
    pub language: String,
    pub translate_to_english: bool,
    pub show_recording_status: bool,
    /// When this cache entry was loaded (Unix timestamp, milliseconds).
    pub loaded_at_ms: u64,
}

impl Clone for RecordingConfig {
    fn clone(&self) -> (r: Self)
        ensures
            r == *self,
    {
        RecordingConfig {
            show_pill_widget: self.show_pill_widget,
            pill_indicator_mode: self.pill_indicator_mode.clone(),
            ai_enabled: self.ai_enabled,
            ai_provider: self.ai_provider.clone(),
            ai_model: self.ai_model.clone(),
            current_model: self.current_model.clone(),
            current_engine: self.current_engine.clone(),
            language: self.language.clone(),
            translate_to_english: self.translate_to_english,
            show_recording_status: self.show_recording_status,
            loaded_at_ms: self.loaded_at_ms,
        }
    }
}

impl RecordingConfig {
    /// Whether the entry is fresh at the given time: younger than the
    /// maximum cache age.  A clock that moved backwards counts as
    /// fresh, as an age of zero.
    pub fn fresh_at(&self, now_ms: u64) -> (r: bool)
        ensures
            r == ((now_ms as int) < (self.loaded_at_ms as int) + MAX_CACHE_AGE_MS),
    {
        if now_ms >= self.loaded_at_ms {
            now_ms - self.loaded_at_ms < MAX_CACHE_AGE_MS
        } else {
            true
        }
    }

    /// Whether the entry is still fresh now.  Reads the wall clock;
    /// the exact decision for a given time is `fresh_at`.
    pub fn is_fresh(&self) -> bool {
        let now = crate::remote::settings::current_timestamp();
        self.fresh_at(now)
    }
}

/// The engine chosen to serve a transcription, with what it needs.
#[derive(Debug, PartialEq)]
pub enum ActiveEngineSelection {
    /// Local inference with a model file.
    Whisper { model_name: String, model_path: String },
    /// The sidecar engine.
    Parakeet { model_name: String },
    /// The cloud engine.
    Soniox { model_name: String },
    /// Another instance's shared model.
    Remote {
        server_id: String,
        server_name: String,
        host: String,
        port: u16,
        password: Option<String>,
    },
}

impl ActiveEngineSelection {
    /// The engine kind's name.
    pub fn engine_name(&self) -> (r: &'static str)
        ensures
            self is Whisper ==> r@ == "whisper"@,
            self is Parakeet ==> r@ == "parakeet"@,
            self is Soniox ==> r@ == "soniox"@,
            self is Remote ==> r@ == "remote"@,
    {
        match self {
            ActiveEngineSelection::Whisper { .. } => "whisper",
            ActiveEngineSelection::Parakeet { .. } => "parakeet",
            ActiveEngineSelection::Soniox { .. } => "soniox",
            ActiveEngineSelection::Remote { .. } => "remote",
        }
    }

    /// The name shown for what serves the request: the model's name,
    /// or the remote server's name.
    pub fn model_name(&self) -> (r: &str)
        ensures
            match self {
                ActiveEngineSelection::Whisper { model_name, .. } => r@ == model_name@,
                ActiveEngineSelection::Parakeet { model_name } => r@ == model_name@,
                ActiveEngineSelection::Soniox { model_name } => r@ == model_name@,
                ActiveEngineSelection::Remote { server_name, .. } => r@ == server_name@,
            },
    {
        match self {
            ActiveEngineSelection::Whisper { model_name, .. } => model_name.as_str(),
            ActiveEngineSelection::Parakeet { model_name } => model_name.as_str(),
            ActiveEngineSelection::Soniox { model_name } => model_name.as_str(),
            ActiveEngineSelection::Remote { server_name, .. } => server_name.as_str(),
        }
    }
}

/// How many leading bytes of a model name come before its first dash.
pub open spec fn spec_stem_len(b: Seq<u8>) -> int
    decreases b.len(),
{
    if b.len() == 0 {
        0
    } else if b.first() == 45 {
        0
    } else {
        1 + spec_stem_len(b.drop_first())
    }
}

/// The part of a model name before its first dash (the whole name
/// when it has none): `large` for `large-v3`.
pub open spec fn spec_model_stem(b: Seq<u8>) -> Seq<u8> {
    b.take(spec_stem_len(b))
}

proof fn lemma_stem_len_at(b: Seq<u8>, i: int)
    requires
        0 <= i <= b.len(),
        forall|k: int| 0 <= k < i ==> b[k] != 45,
        i < b.len() ==> b[i] == 45,
    ensures
        spec_stem_len(b) == i,
    decreases b.len(),
{
    if b.len() > 0 && i > 0 {
        assert(forall|k: int| 0 <= k < i - 1 ==> b.drop_first()[k] == b[k + 1] && b[k + 1] != 45);
        if i < b.len() {
            assert(b.drop_first()[i - 1] == b[i]);
        }
        lemma_stem_len_at(b.drop_first(), i - 1);
    }
}

fn model_stem(requested: &str) -> (r: Vec<u8>)
    ensures
        r@ == spec_model_stem(requested.spec_bytes()),
{
    let bytes = requested.as_bytes();
    let n = bytes.len();
    let mut stem: Vec<u8> = Vec::new();
    let mut i: usize = 0;
    while i < n
        invariant
            n == bytes@.len(),
            bytes@ == requested.spec_bytes(),
            i <= n,
            stem@ == bytes@.take(i as int),
            forall|k: int| 0 <= k < i ==> bytes@[k] != 45,
        decreases n - i,
    {
        if bytes[i] == 45 {
            proof {
                lemma_stem_len_at(bytes@, i as int);
            }
            return stem;
        }
        stem.push(bytes[i]);
        assert(stem@ =~= bytes@.take(i + 1));
        i += 1;
    }
    proof {
        lemma_stem_len_at(bytes@, n as int);
        assert(bytes@.take(n as int) =~= bytes@);
    }
    stem
}

/// Some available model's name starts with the requested name's stem.
pub open spec fn spec_has_stem_match(available: Seq<String>, stem: Seq<u8>) -> bool {
    exists|i: int| 0 <= i < available.len() && is_prefix_of(stem, encode_utf8(available[i]@))
}

/// The available models contain one with this name.
pub open spec fn spec_avail_contains(available: Seq<String>, name: Seq<char>) -> bool {
    exists|i: int| 0 <= i < available.len() && available[i]@ == name
}

/// Some priority model is among the available ones.
pub open spec fn spec_has_priority_match(available: Seq<String>, priority: Seq<String>) -> bool {
    exists|j: int| 0 <= j < priority.len() && spec_avail_contains(available, priority[j]@)
}

fn avail_contains(available: &Vec<String>, name: &String) -> (r: bool)
    ensures
        r == spec_avail_contains(available@, name@),
{
    let n = available.len();
    let mut i: usize = 0;
    while i < n
        invariant
            n == available@.len(),
            i <= n,
            forall|k: int| 0 <= k < i ==> available@[k]@ != name@,
        decreases n - i,
    {
        if available[i].eq(name) {
            return true;
        }
        i += 1;
    }
    false
}

/// Choose the best fallback model when the requested one is missing:
/// first an available model whose name shares the requested name's
/// stem, then the first priority model that is available, then the
/// first available model, and `base.en` only when nothing is
/// available at all.
pub fn select_best_fallback_model(
    available: &Vec<String>,
    requested: &str,
    model_priority: &Vec<String>,
) -> (r: String)
    ensures
        ({
            let stem = spec_model_stem(requested.spec_bytes());
            let stem_hit = requested@.len() > 0 && spec_has_stem_match(available@, stem);
            let prio_hit = spec_has_priority_match(available@, model_priority@);
            &&& stem_hit ==> exists|i: int|
                0 <= i < available@.len() && r == available@[i] && is_prefix_of(
                    stem,
                    encode_utf8(available@[i]@),
                )
            &&& !stem_hit && prio_hit ==> exists|j: int|
                0 <= j < model_priority@.len() && r == model_priority@[j] && spec_avail_contains(
                    available@,
                    model_priority@[j]@,
                )
            &&& !stem_hit && !prio_hit && available@.len() > 0 ==> r == available@[0]
            &&& !stem_hit && !prio_hit && available@.len() == 0 ==> r@ == "base.en"@
        }),
{
    if !requested.is_empty() {
        let stem = model_stem(requested);
        let n = available.len();
        let mut i: usize = 0;
        while i < n
            invariant
                n == available@.len(),
                requested@.len() > 0,
                stem@ == spec_model_stem(requested.spec_bytes()),
                i <= n,
                forall|k: int|
                    0 <= k < i ==> !is_prefix_of(stem@, encode_utf8(available@[k]@)),
            decreases n - i,
        {
            if crate::text::bytes_starts_with(available[i].as_str().as_bytes(), stem.as_slice()) {
                return available[i].clone();
            }
            i += 1;
        }
    }
    let np = model_priority.len();
    let mut j: usize = 0;
    while j < np
        invariant
            np == model_priority@.len(),
            j <= np,
            requested@.len() > 0 ==> !spec_has_stem_match(
                available@,
                spec_model_stem(requested.spec_bytes()),
            ),
            forall|k: int|
                0 <= k < j ==> !spec_avail_contains(available@, model_priority@[k]@),
        decreases np - j,
    {
        if avail_contains(available, &model_priority[j]) {
            return model_priority[j].clone();
        }
        j += 1;
    }
    if available.len() > 0 {
        available[0].clone()
    } else {
        "base.en".to_owned()
    }
}

} // verus!
