//! Server-side data model of the wire protocol: response bodies,
//! server configuration with password validation, and the coarse
//! running/idle status.

use vstd::prelude::*;

verus! {

/// Default port a sharing server listens on.
pub const DEFAULT_SHARING_PORT: u16 = 47842;

/// Body of a successful reply from the status endpoint.
#[derive(Debug, Clone, PartialEq)]
pub struct StatusResponse {
    pub status: String,
    pub version: String,
    pub model: String,
    pub name: String,
}

/// Body of a successful reply from the transcribe endpoint.
#[derive(Debug, Clone, PartialEq)]
pub struct TranscribeResponse {
    pub text: String,
    pub duration_ms: u64,
    pub model: String,
}

/// Error body returned by either endpoint.
#[derive(Debug, Clone, PartialEq)]
pub struct ErrorResponse {
    pub error: String,
}

/// Configuration of this instance's sharing server.
#[derive(Debug, PartialEq)]
pub struct RemoteServerConfig {
    /// Port to listen on.
    pub port: u16,
    /// Optional shared secret; `None` means no authentication.
    pub password: Option<String>,
    /// Whether sharing is enabled.
    pub enabled: bool,
}

impl Clone for RemoteServerConfig {
    fn clone(&self) -> (r: Self)
        ensures
            r == *self,
    {
        RemoteServerConfig {
            port: self.port,
            password: match &self.password {
                Option::None => Option::None,
                Option::Some(p) => Option::Some(p.clone()),
            },
            enabled: self.enabled,
        }
    }
}

impl Default for RemoteServerConfig {
    /// Sharing is off by default, on the default port, with no password.
    fn default() -> (r: Self)
        ensures
            r.port == DEFAULT_SHARING_PORT,
            r.password is None,
            !r.enabled,
    {
        Self { port: DEFAULT_SHARING_PORT, password: None, enabled: false }
    }
}

/// A request's credential is accepted exactly when no password is
/// required, or the provided one equals the required one.
pub open spec fn password_accepted(
    required: Option<Seq<char>>,
    provided: Option<Seq<char>>,
) -> bool {
    match required {
        Option::None => true,
        Option::Some(req) => provided == Option::Some(req),
    }
}

/// The view of an optional string.
pub open spec fn opt_str_view(s: Option<&str>) -> Option<Seq<char>> {
    match s {
        Option::None => Option::None,
        Option::Some(p) => Option::Some(p@),
    }
}

/// The view of an optional owned string.
pub open spec fn opt_string_view(s: Option<String>) -> Option<Seq<char>> {
    match s {
        Option::None => Option::None,
        Option::Some(p) => Option::Some(p@),
    }
}

impl RemoteServerConfig {
    /// Validate a provided password against the configured one.
    ///
    /// Succeeds when no password is required, or when the provided
    /// password matches the configured one exactly.
    pub fn validate_password(&self, provided: Option<&str>) -> (r: bool)
        ensures
            r == password_accepted(opt_string_view(self.password), opt_str_view(provided)),
    {
        match &self.password {
            Option::None => true,
            Option::Some(required) => {
                match provided {
                    Option::None => false,
                    Option::Some(p) => {
                        let owned = p.to_owned();
                        owned.eq(required)
                    },
                }
            },
        }
    }
}

/// Coarse status of the sharing server.
#[derive(Debug, Clone, PartialEq, Eq, Structural)]
pub enum ServerStatus {
    /// Server is not running.
    Idle,
    /// Server is running and accepting connections.
    Running { port: u16, connections: usize },
}

impl ServerStatus {
    /// Whether the server is currently running.
    pub fn is_running(&self) -> (r: bool)
        ensures
            r == (self is Running),
    {
        match self {
            ServerStatus::Running { .. } => true,
            ServerStatus::Idle => false,
        }
    }
}

} // verus!
