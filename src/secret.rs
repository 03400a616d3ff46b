//! Where the control gateway's secret comes from.
use crate::error::{io_error, IoFailure, SrvClientError};
use vstd::prelude::*;

verus! {

/// What was found at the secret file's path.
#[derive(Debug, PartialEq, Eq)]
pub enum SecretFile {
    /// The file's contents.
    Found(String),
    /// No file is there.
    Missing,
    /// The path could not be read.
    Unreadable(IoFailure),
}

/// The secret that the file gives, or why it gives none.
pub open spec fn secret_from_file(file: SecretFile, path: String) -> Result<String, SrvClientError> {
    match file {
        SecretFile::Found(s) => Ok(s),
        SecretFile::Missing => Err(SrvClientError::CtlSecretNotFound(path)),
        SecretFile::Unreadable(e) => Err(io_error(e)),
    }
}

/// The secret resolved from the environment override, then the CLI
/// configuration (whose loading may fail), then the secret file at `path`:
/// the first source that holds one wins.
pub open spec fn secret_resolution(
    env: Option<String>,
    config: Result<Option<String>, String>,
    file: SecretFile,
    path: String,
) -> Result<String, SrvClientError> {
    match env {
        Some(v) => Ok(v),
        None => match config {
            Err(e) => Err(SrvClientError::CliConfigError(e)),
            Ok(Some(v)) => Ok(v),
            Ok(None) => secret_from_file(file, path),
        },
    }
}

/// Reads the secret from what was found at the secret file's `path`.
pub fn ctl_secret_key_from_file(file: SecretFile, path: String) -> (r: Result<
    String,
    SrvClientError,
>)
    ensures
        r == secret_from_file(file, path),
{
    match file {
        SecretFile::Found(s) => Ok(s),
        SecretFile::Missing => Err(SrvClientError::CtlSecretNotFound(path)),
        SecretFile::Unreadable(e) => Err(SrvClientError::from_io(e)),
    }
}

/// Resolves the secret from the three sources, given as read: the
/// environment override, the loaded CLI configuration's secret, and what is
/// at the secret file's `path`.
pub fn ctl_secret_key(
    env: Option<String>,
    config: Result<Option<String>, String>,
    file: SecretFile,
    path: String,
) -> (r: Result<String, SrvClientError>)
    ensures
        r == secret_resolution(env, config, file, path),
{
    match env {
        Some(v) => Ok(v),
        None => match config {
            Err(e) => Err(SrvClientError::CliConfigError(e)),
            Ok(Some(v)) => Ok(v),
            Ok(None) => ctl_secret_key_from_file(file, path),
        },
    }
}

/// The environment override wins over the other sources whatever they
/// hold; without it a secret in the CLI configuration wins over the file;
/// with no source holding one, the error names the file's path.
pub proof fn lemma_secret_precedence(
    env: Option<String>,
    config: Result<Option<String>, String>,
    file: SecretFile,
    path: String,
)
    ensures
        env matches Some(v) ==> secret_resolution(env, config, file, path) == Ok::<
            String,
            SrvClientError,
        >(v),
        env is None ==> (config matches Ok(Some(c)) ==> secret_resolution(env, config, file, path)
            == Ok::<String, SrvClientError>(c)),
        env is None && config == Ok::<Option<String>, String>(None) && file is Missing
            ==> secret_resolution(env, config, file, path) == Err::<String, SrvClientError>(
            SrvClientError::CtlSecretNotFound(path),
        ),
{
}

} // verus!
