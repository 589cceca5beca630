//! Immutable per-repository configuration: where the local copy lives, which
//! remote and reference to track, how often to poll, and the optional
//! credential used during fetch negotiation.

use vstd::prelude::*;

verus! {

/// SSH credential material. `private_key` holds the literal key content: an
/// externally supplied configuration that names a key file instead is
/// resolved to that file's contents where the configuration is built, before
/// it reaches this type, so that the resolver can always present the key in
/// memory together with the optional public key.
pub struct SshCredentials {
    pub username: Option<String>,
    pub private_key: String,
    pub public_key: Option<String>,
    pub passphrase: Option<String>,
}

/// Plaintext username/password credential.
pub struct PasswordCredentials {
    pub username: Option<String>,
    pub password: String,
}

/// A configured credential: at most one is associated with a repository.
pub enum Credentials {
    Ssh(SshCredentials),
    Password(PasswordCredentials),
}

/// Configuration of one mirrored repository, immutable for the process
/// lifetime. `interval` is the polling interval in seconds; a repository
/// without one is never auto-scheduled.
pub struct Config {
    pub path: String,
    pub remote_url: String,
    pub remote_ref: String,
    pub interval: Option<u64>,
    pub credentials: Option<Credentials>,
}

} // verus!
