//! Shared model state and the decisions of the transcription bridge:
//! the served identity that every request snapshots, the fast empty-audio
//! rejection, the engine routing, and the assembly of the success body.

use vstd::prelude::*;

use crate::remote::server::TranscribeResponse;

verus! {

/// Configuration of one transcription server run.
#[derive(Debug, PartialEq)]
pub struct TranscriptionServerConfig {
    /// The server's display name.
    pub server_name: String,
    /// Password for authentication; `None` means none required.
    pub password: Option<String>,
    /// Path of the currently selected model.
    pub model_path: String,
    /// Name of the currently selected model.
    pub model_name: String,
}

fn clone_opt_string(s: &Option<String>) -> (r: Option<String>)
    ensures
        r == *s,
{
    match s {
        Option::None => Option::None,
        Option::Some(x) => Option::Some(x.clone()),
    }
}

impl Clone for TranscriptionServerConfig {
    fn clone(&self) -> (r: Self)
        ensures
            r == *self,
    {
        TranscriptionServerConfig {
            server_name: self.server_name.clone(),
            password: clone_opt_string(&self.password),
            model_path: self.model_path.clone(),
            model_name: self.model_name.clone(),
        }
    }
}

/// The served model identity, replaced as one unit while the server
/// runs so no request can pair a name from one generation with a path
/// from another.
#[derive(Debug, PartialEq)]
pub struct SharedServerState {
    /// Current model name.
    pub model_name: String,
    /// Current model path (meaningful for local-file engines).
    pub model_path: String,
    /// Current engine kind (`whisper`, `parakeet`, ...).
    pub engine: String,
}

impl Clone for SharedServerState {
    fn clone(&self) -> (r: Self)
        ensures
            r == *self,
    {
        SharedServerState {
            model_name: self.model_name.clone(),
            model_path: self.model_path.clone(),
            engine: self.engine.clone(),
        }
    }
}

impl SharedServerState {
    /// Create shared state from the initial model identity.
    pub fn new(model_name: String, model_path: String, engine: String) -> (r: Self)
        ensures
            r.model_name == model_name,
            r.model_path == model_path,
            r.engine == engine,
    {
        SharedServerState { model_name, model_path, engine }
    }

    /// Replace the whole served identity at once; a reader never sees
    /// a mixture of old and new fields.
    pub fn update_model(&mut self, model_name: String, model_path: String, engine: String)
        ensures
            final(self).model_name == model_name,
            final(self).model_path == model_path,
            final(self).engine == engine,
    {
        self.model_name = model_name;
        self.model_path = model_path;
        self.engine = engine;
    }

    /// The current model name.
    pub fn get_model_name(&self) -> (r: String)
        ensures
            r == self.model_name,
    {
        self.model_name.clone()
    }

    /// The current model path.
    pub fn get_model_path(&self) -> (r: String)
        ensures
            r == self.model_path,
    {
        self.model_path.clone()
    }

    /// The current engine kind.
    pub fn get_engine(&self) -> (r: String)
        ensures
            r == self.engine,
    {
        self.engine.clone()
    }
}

/// One request's snapshot of the served identity, taken at the start
/// of the request and not re-read mid-request.
#[derive(Debug, PartialEq)]
pub struct TranscriptionJob {
    /// Model name of the snapshot's generation.
    pub model_name: String,
    /// Model path of the same generation.
    pub model_path: String,
    /// Engine kind of the same generation.
    pub engine: String,
}

impl Clone for TranscriptionJob {
    fn clone(&self) -> (r: Self)
        ensures
            r == *self,
    {
        TranscriptionJob {
            model_name: self.model_name.clone(),
            model_path: self.model_path.clone(),
            engine: self.engine.clone(),
        }
    }
}

/// Validate the audio and take one atomic snapshot of the served
/// model.  Empty audio fails fast with `Empty audio data`, before any
/// model is looked at or loaded; otherwise the job carries name, path
/// and engine from one generation.
pub fn prepare_transcription(state: &SharedServerState, audio_data: &[u8]) -> (r: Result<
    TranscriptionJob,
    String,
>)
    ensures
        audio_data@.len() == 0 ==> (r matches Err(m) && m@ == "Empty audio data"@),
        audio_data@.len() > 0 ==> (r matches Ok(j) && j.model_name == state.model_name
            && j.model_path == state.model_path && j.engine == state.engine),
{
    if audio_data.len() == 0 {
        return Result::Err("Empty audio data".to_owned());
    }
    Result::Ok(
        TranscriptionJob {
            model_name: state.get_model_name(),
            model_path: state.get_model_path(),
            engine: state.get_engine(),
        },
    )
}

/// Which engine a job is dispatched to.
#[derive(Debug, Clone, Copy, PartialEq, Eq, Structural)]
pub enum EngineRoute {
    /// The sidecar engine.
    Parakeet,
    /// The default local engine.
    Whisper,
}

/// Route a job by its engine kind: `parakeet` goes to the sidecar,
/// everything else to the default local engine.
pub fn route_for_engine(engine: &str) -> (r: EngineRoute)
    ensures
        engine@ == "parakeet"@ ==> r == EngineRoute::Parakeet,
        engine@ != "parakeet"@ ==> r == EngineRoute::Whisper,
{
    let owned = engine.to_owned();
    if owned.eq(&"parakeet".to_owned()) {
        EngineRoute::Parakeet
    } else {
        EngineRoute::Whisper
    }
}

/// Assemble the route's success body: the produced text, the elapsed
/// time, and the model of the generation that served the request.
pub fn complete_transcription(job: TranscriptionJob, text: String, duration_ms: u64) -> (r:
    TranscribeResponse)
    ensures
        r.text == text,
        r.duration_ms == duration_ms,
        r.model == job.model_name,
{
    TranscribeResponse { text, duration_ms, model: job.model_name }
}

} // verus!
