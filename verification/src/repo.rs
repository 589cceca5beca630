//! The sync engine: one repository's open-or-initialize → fetch → compare →
//! hard-reset protocol, with its timestamps. A call either reports whether
//! the local copy changed, or fails fast with a typed error; the "checked"
//! timestamp is recorded before any other work, and the "changed" timestamp
//! moves only on a confirmed reset.

use vstd::prelude::*;
use vstd::string::StringExecFns;
use crate::config::Config;
use crate::git;

verus! {

/// Why an update failed: a version-control-layer failure (open, initialize,
/// fetch, resolve or reset, including authentication failures raised during
/// the fetch negotiation), or a local I/O failure (a filesystem step such as
/// creating the repository's directory path).
#[derive(Debug)]
pub enum UpdateError {
    Git(git2::Error),
    Io(std::io::Error),
}

impl From<git2::Error> for UpdateError {
    fn from(err: git2::Error) -> (r: Self) {
        UpdateError::Git(err)
    }
}

impl vstd::std_specs::convert::FromSpecImpl<git2::Error> for UpdateError {
    open spec fn obeys_from_spec() -> bool {
        true
    }

    open spec fn from_spec(v: git2::Error) -> UpdateError {
        UpdateError::Git(v)
    }
}

impl From<std::io::Error> for UpdateError {
    fn from(err: std::io::Error) -> (r: Self) {
        UpdateError::Io(err)
    }
}

impl vstd::std_specs::convert::FromSpecImpl<std::io::Error> for UpdateError {
    open spec fn obeys_from_spec() -> bool {
        true
    }

    open spec fn from_spec(v: std::io::Error) -> UpdateError {
        UpdateError::Io(v)
    }
}

/// Whether two object identities are the same, byte for byte.
pub fn ids_equal(a: &Vec<u8>, b: &Vec<u8>) -> (r: bool)
    ensures
        r == (a@ == b@),
{
    if a.len() != b.len() {
        return false;
    }
    let mut i: usize = 0;
    while i < a.len()
        invariant
            i <= a@.len(),
            a@.len() == b@.len(),
            forall|j: int| 0 <= j < i ==> a@[j] == b@[j],
        decreases a@.len() - i,
    {
        if a[i] != b[i] {
            return false;
        }
        i += 1;
    }
    proof {
        assert(a@ =~= b@);
    }
    true
}

/// The refspec that forces the configured remote reference onto the fixed
/// local staging reference, where the fetched commit lands before the
/// compare and reset steps.
pub fn staging_refspec(remote_ref: &String) -> (r: String)
    ensures
        r@ == "+"@ + remote_ref@ + ":refs/pullomatic"@,
{
    let mut s = String::from_str("+");
    s.append(remote_ref.as_str());
    s.append(":refs/pullomatic");
    proof {
        assert(s@ =~= "+"@ + remote_ref@ + ":refs/pullomatic"@);
    }
    s
}

/// What the compare step decided.
#[derive(Clone, Copy, PartialEq, Eq, Structural, Debug)]
pub enum SyncDecision {
    /// A local head exists and already has the staging identity: no
    /// destructive operation is to be performed.
    AlreadyUpToDate,
    /// There is no local head yet, or it differs from the staging identity:
    /// converge by hard reset.
    NeedsReset,
}

pub open spec fn opt_bytes(o: Option<Vec<u8>>) -> Option<Seq<u8>> {
    match o {
        Some(v) => Some(v@),
        None => None,
    }
}

/// The compare step: a reset is skipped exactly when a local head exists
/// and its identity equals the staging identity.
pub open spec fn spec_sync_decision(head: Option<Seq<u8>>, staging: Seq<u8>) -> SyncDecision {
    match head {
        Some(h) => if h == staging {
            SyncDecision::AlreadyUpToDate
        } else {
            SyncDecision::NeedsReset
        },
        None => SyncDecision::NeedsReset,
    }
}

/// Decide whether the local copy already matches the staging identity. An
/// absent local head — the first-ever sync of a fresh repository — is no
/// failure: it decides for the reset.
pub fn sync_decision(head: &Option<Vec<u8>>, staging: &Vec<u8>) -> (d: SyncDecision)
    ensures
        d == spec_sync_decision(opt_bytes(*head), staging@),
{
    match head {
        Some(h) => {
            if ids_equal(h, staging) {
                SyncDecision::AlreadyUpToDate
            } else {
                SyncDecision::NeedsReset
            }
        }
        None => SyncDecision::NeedsReset,
    }
}

/// First-sync tolerance law: when no local head exists yet, the compare step
/// never refuses to proceed — whatever identity the staging reference
/// resolved to, the decision is to reset, so a fresh repository converges
/// and the update reports a change.
pub proof fn lemma_first_sync_tolerance(staging: Seq<u8>)
    ensures
        spec_sync_decision(None, staging) == SyncDecision::NeedsReset,
{
}

/// Skipped-reset law: whenever the local head identity equals the staging
/// identity, the compare step decides against the destructive reset, and
/// only then.
pub proof fn lemma_reset_skipped_exactly_when_converged(head: Seq<u8>, staging: Seq<u8>)
    ensures
        spec_sync_decision(Some(head), staging) == SyncDecision::AlreadyUpToDate <==> head
            == staging,
{
}

/// A named handle on one mirrored repository: its immutable name and
/// configuration, and the two mutable timestamps. Only the timestamps ever
/// change after construction, and only under the exclusive access that
/// `&mut self` grants the one worker currently updating this repository.
pub struct Repo {
    name: String,
    config: Config,
    last_checked: Option<u64>,
    last_changed: Option<u64>,
}

impl Repo {
    /// The repository's name.
    pub closed spec fn spec_name(self) -> Seq<char> {
        self.name@
    }

    /// The repository's immutable configuration.
    pub closed spec fn spec_config(self) -> Config {
        self.config
    }

    /// When the repository was last checked (seconds), if ever.
    pub closed spec fn spec_last_checked(self) -> Option<u64> {
        self.last_checked
    }

    /// When an update last changed the local copy (seconds), if ever.
    pub closed spec fn spec_last_changed(self) -> Option<u64> {
        self.last_changed
    }

    /// A fresh handle: never checked, never changed.
    pub fn new(name: String, config: Config) -> (r: Self)
        ensures
            r.spec_name() == name@,
            r.spec_config() == config,
            r.spec_last_checked() is None,
            r.spec_last_changed() is None,
    {
        Repo { name, config, last_checked: None, last_changed: None }
    }

    pub fn name(&self) -> (r: &str)
        ensures
            r@ == self.spec_name(),
    {
        self.name.as_str()
    }

    pub fn config(&self) -> (r: &Config)
        ensures
            *r == self.spec_config(),
    {
        &self.config
    }

    pub fn last_checked(&self) -> (r: Option<u64>)
        ensures
            r == self.spec_last_checked(),
    {
        self.last_checked
    }

    pub fn last_changed(&self) -> (r: Option<u64>)
        ensures
            r == self.spec_last_changed(),
    {
        self.last_changed
    }

    /// Converge the local copy to the tracked remote reference, reporting
    /// `Ok(true)` when the local copy was changed and `Ok(false)` when it
    /// was already up to date.
    ///
    /// `now` is the caller's clock reading (seconds) for this call. It is
    /// recorded as the "checked" timestamp before any other work, so the
    /// timestamp stands even when the call then fails; the "changed"
    /// timestamp becomes that same reading exactly when a reset confirmed a
    /// change, and is otherwise left as it was. Name and configuration never
    /// change. A failing version-control step surfaces as the `Git` error
    /// kind; a failure of the initialize step that libgit2 classed as an
    /// operating-system or filesystem failure — the creation of the
    /// repository's directory path among them — surfaces as the local I/O
    /// kind, `Io`.
    pub fn update(&mut self, now: u64) -> (r: Result<bool, UpdateError>)
        ensures
            final(self).spec_name() == old(self).spec_name(),
            final(self).spec_config() == old(self).spec_config(),
            final(self).spec_last_checked() == Some(now),
            r == Ok::<bool, UpdateError>(true) ==> final(self).spec_last_changed() == Some(now),
            r != Ok::<bool, UpdateError>(true) ==> final(self).spec_last_changed() == old(
                self,
            ).spec_last_changed(),
    {
        self.last_checked = Some(now);

        let repository = if git::path_exists(&self.config.path) {
            match git::git_open(&self.config.path) {
                Ok(r) => r,
                Err(e) => {
                    return Err(UpdateError::Git(e));
                }
            }
        } else {
            match git::git_init(&self.config.path) {
                Ok(r) => r,
                Err(e) => {
                    // Initialization covers the local filesystem work of
                    // creating the directory path: a failure of that kind is
                    // a local I/O error, not a version-control one.
                    if git::error_class_is_local_io(&e) {
                        return Err(UpdateError::Io(git::io_error_from_git(&e)));
                    }
                    return Err(UpdateError::Git(e));
                }
            }
        };

        let mut remote = match git::git_remote_anonymous(&repository, &self.config.remote_url) {
            Ok(r) => r,
            Err(e) => {
                return Err(UpdateError::Git(e));
            }
        };

        let refspec = staging_refspec(&self.config.remote_ref);
        match git::git_fetch(&mut remote, &refspec, &self.config.credentials) {
            Ok(_) => {}
            Err(e) => {
                return Err(UpdateError::Git(e));
            }
        }

        let head_obj = match git::git_revparse(&repository, "HEAD") {
            Ok(o) => Some(o),
            Err(_) => None,
        };
        let staging_obj = match git::git_revparse(&repository, "refs/pullomatic") {
            Ok(o) => o,
            Err(e) => {
                return Err(UpdateError::Git(e));
            }
        };

        let staging_id = git::git_object_id(&staging_obj);
        let head_id = match &head_obj {
            Some(o) => Some(git::git_object_id(o)),
            None => None,
        };

        match sync_decision(&head_id, &staging_id) {
            SyncDecision::AlreadyUpToDate => Ok(false),
            SyncDecision::NeedsReset => {
                match git::git_reset_hard(&repository, &staging_obj) {
                    Ok(_) => {}
                    Err(e) => {
                        return Err(UpdateError::Git(e));
                    }
                }
                self.last_changed = Some(now);
                Ok(true)
            }
        }
    }
}

} // verus!
