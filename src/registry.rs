//! The closed set of language servers this adapter knows, and the errors it
//! reports to the host.
use vstd::prelude::*;

verus! {

/// One known language-server configuration.
#[derive(Clone, Copy, Debug, PartialEq, Eq, Structural)]
pub enum ServerKind {
    /// The svls Verilog language server.
    Svls,
}

/// The identity token under which the host names the svls server.
pub open spec fn svls_id() -> Seq<char> {
    "svls"@
}

/// The classification of an identity token: the known server it names, if any.
pub open spec fn kind_of(token: Seq<char>) -> Option<ServerKind> {
    if token == svls_id() {
        Some(ServerKind::Svls)
    } else {
        None
    }
}

/// The prefix of the message reported for an identity that names no known server.
pub open spec fn unknown_prefix() -> Seq<char> {
    "unknown language server: "@
}

/// An error that keeps a server from starting.
#[derive(Clone, Debug)]
pub enum AdapterError {
    /// The identity token names no known server; it carries the token.
    UnknownServer(String),
    /// Provisioning the server's executable failed; it carries the cause.
    ProvisioningFailed(ServerKind, String),
    /// Provisioning reported a path that is not an executable file.
    NotExecutable(ServerKind, String),
    /// Provisioning reported a path that is empty or relative.
    NotAbsolute(ServerKind, String),
}

impl ServerKind {
    /// The identity token of this server.
    pub open spec fn id(self) -> Seq<char> {
        match self {
            ServerKind::Svls => svls_id(),
        }
    }

    /// The identity token of this server.
    pub fn language_server_id(&self) -> (r: &'static str)
        ensures
            r@ == self.id(),
    {
        proof {
            reveal_strlit("svls");
        }
        match self {
            ServerKind::Svls => "svls",
        }
    }
}

/// Classifies an identity token as the known server it names, or rejects it
/// as unknown, carrying the token.
pub fn classify(token: &str) -> (r: Result<ServerKind, AdapterError>)
    ensures
        kind_of(token@) matches Some(k) ==> r == Ok::<ServerKind, AdapterError>(k),
        kind_of(token@) is None ==> (r matches Err(AdapterError::UnknownServer(t)) && t@ == token@),
{
    let given = String::from_str(token);
    let svls = String::from_str(ServerKind::Svls.language_server_id());
    if given == svls {
        Ok(ServerKind::Svls)
    } else {
        Err(AdapterError::UnknownServer(given))
    }
}

impl AdapterError {
    /// The message that reports this error to the user.
    pub open spec fn spec_message(&self) -> Seq<char> {
        match self {
            AdapterError::UnknownServer(t) => unknown_prefix() + t@,
            AdapterError::ProvisioningFailed(k, cause) => k.id() + ": provisioning failed: "@
                + cause@,
            AdapterError::NotExecutable(k, path) => k.id() + ": not an executable file: "@
                + path@,
            AdapterError::NotAbsolute(k, path) => k.id() + ": not an absolute path: "@ + path@,
        }
    }

    /// The message that reports this error to the user.
    pub fn message(&self) -> (r: String)
        ensures
            r@ == self.spec_message(),
    {
        match self {
            AdapterError::UnknownServer(t) => {
                let mut m = String::from_str("unknown language server: ");
                m.append(t.as_str());
                m
            },
            AdapterError::ProvisioningFailed(k, cause) => {
                let mut m = String::from_str(k.language_server_id());
                m.append(": provisioning failed: ");
                m.append(cause.as_str());
                m
            },
            AdapterError::NotExecutable(k, path) => {
                let mut m = String::from_str(k.language_server_id());
                m.append(": not an executable file: ");
                m.append(path.as_str());
                m
            },
            AdapterError::NotAbsolute(k, path) => {
                let mut m = String::from_str(k.language_server_id());
                m.append(": not an absolute path: ");
                m.append(path.as_str());
                m
            },
        }
    }
}

} // verus!
