//! The errors that end a client or a server before it serves anything.

use vstd::prelude::*;

verus! {

/// The step of a socket's setup.
#[derive(Clone, Copy, Debug, PartialEq, Eq, Structural)]
pub enum SetupStage {
    /// The socket is created.
    Create,
    /// The socket is marked close-on-exec.
    SetCloseOnExec,
    /// The signal on a write to a reset peer is switched off.
    SuppressSigpipe,
}

/// Why a client or a server could not be set up.
#[derive(Clone, Copy, Debug, PartialEq, Eq, Structural)]
pub enum SetupError {
    /// The locator is not an absolute URL.
    MalformedLocator,
    /// The scheme of the locator is not the scheme of the tunnel.
    UnsupportedScheme,
    /// The locator names no host.
    MissingHost,
    /// The host resolved to no address.
    Unresolved,
    /// The session to the server could not be established.
    ConnectFailed,
    /// The stream of the session could not be opened.
    StreamFailed,
    /// A system call of the socket's setup failed. `code` is the number of
    /// the operating system's error, where it gave one.
    Socket { stage: SetupStage, code: Option<i32> },
    /// The identity of the server could not be generated.
    Identity,
}

impl SetupError {
    /// The message of the error, as a mathematical value.
    pub open spec fn spec_message(self) -> Seq<char> {
        match self {
            SetupError::MalformedLocator => "URL is malformed"@,
            SetupError::UnsupportedScheme => "URL scheme must be quic"@,
            SetupError::MissingHost => "URL has no host"@,
            SetupError::Unresolved => "couldn't resolve to an address"@,
            SetupError::ConnectFailed => "failed to establish the session"@,
            SetupError::StreamFailed => "failed to open stream"@,
            SetupError::Socket { stage: SetupStage::Create, .. } => "couldn't create the socket"@,
            SetupError::Socket { stage: SetupStage::SetCloseOnExec, .. } =>
                "couldn't mark the socket close-on-exec"@,
            SetupError::Socket { stage: SetupStage::SuppressSigpipe, .. } =>
                "couldn't switch off SIGPIPE on the socket"@,
            SetupError::Identity => "couldn't generate the server's identity"@,
        }
    }

    /// The message that a process prints for the error before it exits.
    pub fn message(&self) -> (r: String)
        ensures
            r@ == self.spec_message(),
    {
        match self {
            SetupError::MalformedLocator => "URL is malformed".to_owned(),
            SetupError::UnsupportedScheme => "URL scheme must be quic".to_owned(),
            SetupError::MissingHost => "URL has no host".to_owned(),
            SetupError::Unresolved => "couldn't resolve to an address".to_owned(),
            SetupError::ConnectFailed => "failed to establish the session".to_owned(),
            SetupError::StreamFailed => "failed to open stream".to_owned(),
            SetupError::Socket { stage: SetupStage::Create, .. } =>
                "couldn't create the socket".to_owned(),
            SetupError::Socket { stage: SetupStage::SetCloseOnExec, .. } =>
                "couldn't mark the socket close-on-exec".to_owned(),
            SetupError::Socket { stage: SetupStage::SuppressSigpipe, .. } =>
                "couldn't switch off SIGPIPE on the socket".to_owned(),
            SetupError::Identity => "couldn't generate the server's identity".to_owned(),
        }
    }
}

} // verus!
