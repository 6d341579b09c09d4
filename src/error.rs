use vstd::prelude::*;

verus! {

/// Why the synchronisation of one repository, or the loading of the
/// configuration, failed. Each variant carries the text that describes it.
#[derive(Debug, Clone, PartialEq, Eq)]
pub enum GitBotError {
    /// The version-control engine or the push transport reported a failure.
    GitError(String),
    /// A filesystem access failed.
    IoError(String),
    /// The configured path does not exist on disk.
    InvalidPath(String),
    /// The configuration is missing a field or holds a malformed one.
    ConfigError(String),
}

/// The prefix that names each kind of failure in a description.
pub open spec fn error_prefix(e: GitBotError) -> Seq<char> {
    match e {
        GitBotError::GitError(_) => "Error de Git: "@,
        GitBotError::IoError(_) => "Error de IO: "@,
        GitBotError::InvalidPath(_) => "Path inválido: "@,
        GitBotError::ConfigError(_) => "Error de configuración: "@,
    }
}

/// The text carried by a failure.
pub open spec fn error_detail(e: GitBotError) -> Seq<char> {
    match e {
        GitBotError::GitError(m) => m@,
        GitBotError::IoError(m) => m@,
        GitBotError::InvalidPath(p) => p@,
        GitBotError::ConfigError(m) => m@,
    }
}

impl GitBotError {
    /// A one-line, human-readable description: the kind of failure followed
    /// by the text it carries.
    pub fn describe(&self) -> (r: String)
        ensures
            r@ == error_prefix(*self) + error_detail(*self),
    {
        match self {
            GitBotError::GitError(m) => String::from_str("Error de Git: ").concat(m.as_str()),
            GitBotError::IoError(m) => String::from_str("Error de IO: ").concat(m.as_str()),
            GitBotError::InvalidPath(p) => String::from_str("Path inválido: ").concat(p.as_str()),
            GitBotError::ConfigError(m) => String::from_str("Error de configuración: ").concat(
                m.as_str(),
            ),
        }
    }
}

} // verus!
