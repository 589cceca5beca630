//! The trusted boundary to libgit2 (through the `git2` crate): type
//! declarations for the handles the sync engine carries, and one small
//! wrapper per call the engine makes. Everything here is believed on the
//! strength of `git2`'s documented behaviour; the logic around these calls
//! is verified against what these contracts state.

use vstd::prelude::*;
use crate::config::Credentials;
use crate::creds::AllowedMask;
use crate::creds::answer_challenge;

verus! {

#[verifier::external_type_specification]
#[verifier::external_body]
pub struct ExGitError(git2::Error);

#[verifier::external_type_specification]
#[verifier::external_body]
pub struct ExIoError(std::io::Error);

#[verifier::external_type_specification]
#[verifier::external_body]
pub struct ExRepository(git2::Repository);

#[verifier::external_type_specification]
#[verifier::external_body]
pub struct ExRemote<'repo>(git2::Remote<'repo>);

#[verifier::external_type_specification]
#[verifier::external_body]
pub struct ExObject<'repo>(git2::Object<'repo>);

#[verifier::external_type_specification]
#[verifier::external_body]
pub struct ExCred(git2::Cred);

#[verifier::external_type_specification]
#[verifier::external_body]
pub struct ExCredentialType(git2::CredentialType);

/// Relies on `std::path::Path::exists`: whether something exists on disk at
/// this path. The answer depends on the machine's filesystem, so nothing
/// more is stated of it.
#[verifier::external_body]
pub(crate) fn path_exists(path: &String) -> bool {
    std::path::Path::new(path.as_str()).exists()
}

/// Relies on `git2::Repository::open`: opens the existing repository at
/// `path`, failing when there is none to open.
#[verifier::external_body]
pub(crate) fn git_open(path: &String) -> Result<git2::Repository, git2::Error> {
    git2::Repository::open(path.as_str())
}

/// Relies on `git2::Repository::init`: creates any directories missing on
/// the path and initializes a new, empty repository there.
#[verifier::external_body]
pub(crate) fn git_init(path: &String) -> Result<git2::Repository, git2::Error> {
    git2::Repository::init(path.as_str())
}

/// Relies on `git2::Repository::remote_anonymous`: an in-memory handle to
/// the remote at `url`, with no remote configuration persisted.
#[verifier::external_body]
pub(crate) fn git_remote_anonymous<'repo>(
    repo: &'repo git2::Repository,
    url: &String,
) -> Result<git2::Remote<'repo>, git2::Error> {
    repo.remote_anonymous(url.as_str())
}

/// Relies on `git2::CredentialType::contains`: reads out of the remote's
/// capability bitmask the three mechanisms the resolver distinguishes.
#[verifier::external_body]
pub(crate) fn mask_of(allowed: git2::CredentialType) -> AllowedMask {
    AllowedMask {
        username: allowed.contains(git2::CredentialType::USERNAME),
        ssh_memory: allowed.contains(git2::CredentialType::SSH_MEMORY),
        userpass_plaintext: allowed.contains(git2::CredentialType::USER_PASS_PLAINTEXT),
    }
}

/// Relies on `git2::Remote::fetch` with pruning of deleted remote branches
/// enabled: downloads the given refspec, so that the staging reference named
/// in it afterwards points at the fetched remote commit. Every credential
/// challenge the remote raises during the transfer is answered by
/// `answer_challenge`, whose own contract ties the answer to the verified
/// resolution order.
#[verifier::external_body]
pub(crate) fn git_fetch<'repo>(
    remote: &mut git2::Remote<'repo>,
    refspec: &String,
    creds: &Option<Credentials>,
) -> Result<(), git2::Error> {
    let mut cb = git2::RemoteCallbacks::new();
    cb.credentials(|_url, user, allowed| {
        let proposed = user.map(|u| u.to_string());
        answer_challenge(mask_of(allowed), creds, &proposed)
    });
    let mut opts = git2::FetchOptions::new();
    opts.prune(git2::FetchPrune::On);
    opts.remote_callbacks(cb);
    remote.fetch(&[refspec.as_str()], Some(&mut opts), None)
}

/// Relies on `git2::Repository::revparse_single`: resolves a revision
/// specification (`HEAD`, or a reference name) to the object it names,
/// failing when it does not resolve.
#[verifier::external_body]
pub(crate) fn git_revparse<'repo>(
    repo: &'repo git2::Repository,
    spec: &str,
) -> Result<git2::Object<'repo>, git2::Error> {
    repo.revparse_single(spec)
}

/// Relies on `git2::Object::id` and `git2::Oid::as_bytes`: the object's
/// identity, the 20 raw bytes of its hash. Two objects are the same exactly
/// when their identity bytes are equal.
#[verifier::external_body]
pub(crate) fn git_object_id(obj: &git2::Object<'_>) -> (id: Vec<u8>)
    ensures
        id@.len() == 20,
{
    obj.id().as_bytes().to_vec()
}

/// Relies on `git2::Repository::reset` with a hard reset and a forced
/// checkout that removes untracked files: working tree, index and `HEAD` are
/// made to match `target`, discarding local divergence.
#[verifier::external_body]
pub(crate) fn git_reset_hard(
    repo: &git2::Repository,
    target: &git2::Object<'_>,
) -> Result<(), git2::Error> {
    let mut checkout = git2::build::CheckoutBuilder::new();
    checkout.force();
    checkout.remove_untracked(true);
    repo.reset(target, git2::ResetType::Hard, Some(&mut checkout))
}

/// Relies on `git2::Cred::username`: a credential that answers the
/// challenge with this username alone. Its only failure is an interior NUL
/// byte in the username, which the `CString` conversion refuses; allocation
/// failure is set aside, as everywhere in this crate.
#[verifier::external_body]
pub(crate) fn cred_username(username: &String) -> (r: Result<git2::Cred, git2::Error>)
    ensures
        crate::creds::nul_free(username@) ==> r is Ok,
{
    git2::Cred::username(username.as_str())
}

/// Relies on `git2::Cred::ssh_key_from_memory`: an in-memory key credential
/// built from the username, the optional public key, the literal private-key
/// material and the optional passphrase. Nothing is claimed of its success:
/// libgit2 refuses in-memory key credentials altogether unless it was built
/// with that support.
#[verifier::external_body]
pub(crate) fn cred_ssh_key_inline(
    username: &String,
    public_key: &Option<String>,
    private_key: &String,
    passphrase: &Option<String>,
) -> Result<git2::Cred, git2::Error> {
    git2::Cred::ssh_key_from_memory(
        username.as_str(),
        public_key.as_deref(),
        private_key.as_str(),
        passphrase.as_deref(),
    )
}

/// Relies on `git2::Cred::userpass_plaintext`: a plaintext username and
/// password credential. Its only failure is an interior NUL byte in an
/// argument, which the `CString` conversions refuse; allocation failure is
/// set aside, as everywhere in this crate.
#[verifier::external_body]
pub(crate) fn cred_userpass(
    username: &String,
    password: &String,
) -> (r: Result<git2::Cred, git2::Error>)
    ensures
        crate::creds::nul_free(username@) && crate::creds::nul_free(password@) ==> r is Ok,
{
    git2::Cred::userpass_plaintext(username.as_str(), password.as_str())
}

/// Relies on `git2::Error::from_str`: an error value carrying the given
/// message, used to surface a resolver failure out of the fetch negotiation.
#[verifier::external_body]
pub(crate) fn git_error_from_message(message: &String) -> git2::Error {
    git2::Error::from_str(message.as_str())
}

/// Relies on `git2::Error::class`: whether libgit2 classed this error as an
/// operating-system (syscall) or filesystem failure — the two classes it
/// gives local filesystem work that failed, such as creating the
/// repository's directory path.
#[verifier::external_body]
pub(crate) fn error_class_is_local_io(e: &git2::Error) -> bool {
    e.class() == git2::ErrorClass::Os || e.class() == git2::ErrorClass::Filesystem
}

/// Relies on `std::io::Error::other` and `git2::Error::message`: an I/O
/// error value carrying the git error's message, for a failure that was a
/// local I/O failure in substance though it was raised through libgit2.
#[verifier::external_body]
pub(crate) fn io_error_from_git(e: &git2::Error) -> std::io::Error {
    std::io::Error::other(e.message().to_string())
}

} // verus!
