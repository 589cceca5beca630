//! Credential resolution: given the set of authentication mechanisms the
//! remote currently accepts and the configured credential, pick exactly one
//! concrete credential or fail. The resolution order is fixed: username-only
//! first, then an in-memory SSH key, then plaintext username/password.

use vstd::prelude::*;
use vstd::string::StringExecFns;
use crate::config::Credentials;

verus! {

/// The mechanisms a remote accepts during one credential challenge.
#[derive(Clone, Copy, PartialEq, Eq, Structural, Debug)]
pub struct AllowedMask {
    /// Username-only negotiation is accepted.
    pub username: bool,
    /// An SSH key presented in memory is accepted.
    pub ssh_memory: bool,
    /// Plaintext username/password is accepted.
    pub userpass_plaintext: bool,
}

/// Why no credential could be produced.
#[derive(Clone, Copy, PartialEq, Eq, Structural, Debug)]
pub enum AuthError {
    /// No credential is configured at all.
    Required,
    /// A credential is configured but matches no accepted mechanism.
    Unsupported,
}

impl AuthError {
    /// The message this failure is surfaced with.
    pub open spec fn spec_message(self) -> Seq<char> {
        match self {
            AuthError::Required => "Authentication is required"@,
            AuthError::Unsupported => "Unsupported authentication"@,
        }
    }

    /// The message this failure is surfaced with.
    pub fn message(&self) -> (r: String)
        ensures
            r@ == self.spec_message(),
    {
        match self {
            AuthError::Required => String::from_str("Authentication is required"),
            AuthError::Unsupported => String::from_str("Unsupported authentication"),
        }
    }
}

/// The one concrete credential the resolver settled on.
pub enum CredDecision {
    /// Answer the challenge with a username alone.
    Username { username: String },
    /// Present an SSH key in memory: the key material, held inline in the
    /// configuration, together with the optional public key.
    SshKeyInline {
        username: String,
        public_key: Option<String>,
        private_key: String,
        passphrase: Option<String>,
    },
    /// Answer with plaintext username and password.
    Plaintext { username: String, password: String },
}

/// Mathematical shape of a `CredDecision`, over character sequences.
pub enum DecisionModel {
    Username { username: Seq<char> },
    SshKeyInline {
        username: Seq<char>,
        public_key: Option<Seq<char>>,
        private_key: Seq<char>,
        passphrase: Option<Seq<char>>,
    },
    Plaintext { username: Seq<char>, password: Seq<char> },
}

pub open spec fn opt_chars(o: Option<String>) -> Option<Seq<char>> {
    match o {
        Some(s) => Some(s@),
        None => None,
    }
}

pub open spec fn decision_model(d: CredDecision) -> DecisionModel {
    match d {
        CredDecision::Username { username } => DecisionModel::Username { username: username@ },
        CredDecision::SshKeyInline { username, public_key, private_key, passphrase } =>
            DecisionModel::SshKeyInline {
                username: username@,
                public_key: opt_chars(public_key),
                private_key: private_key@,
                passphrase: opt_chars(passphrase),
            },
        CredDecision::Plaintext { username, password } =>
            DecisionModel::Plaintext { username: username@, password: password@ },
    }
}

/// The username carried by a configured credential, if any.
pub open spec fn configured_username(c: Credentials) -> Option<String> {
    match c {
        Credentials::Ssh(ssh) => ssh.username,
        Credentials::Password(p) => p.username,
    }
}

/// Step one applies: the mask permits username-only negotiation and the
/// configured credential carries a username.
pub open spec fn username_step_applies(mask: AllowedMask, creds: Option<Credentials>) -> bool {
    &&& mask.username
    &&& creds is Some
    &&& configured_username(creds->Some_0) is Some
}

/// Step two applies: the mask permits an in-memory SSH key and an SSH
/// credential is configured.
pub open spec fn ssh_step_applies(mask: AllowedMask, creds: Option<Credentials>) -> bool {
    &&& mask.ssh_memory
    &&& creds matches Some(Credentials::Ssh(_))
}

/// Step three applies: the mask permits plaintext username/password and a
/// password credential is configured.
pub open spec fn plaintext_step_applies(mask: AllowedMask, creds: Option<Credentials>) -> bool {
    &&& mask.userpass_plaintext
    &&& creds matches Some(Credentials::Password(_))
}

/// No character of the text is the NUL character, so the text can cross the
/// boundary to a C library unchanged.
pub open spec fn nul_free(s: Seq<char>) -> bool {
    forall|i: int| 0 <= i < s.len() ==> s[i] != '\0'
}

/// The full resolution order over (mask, configured credential, proposed
/// username): first matching mechanism wins; a step whose mechanism applies
/// but that has no username to answer with fails rather than silently
/// skipping; a configured credential that matches no accepted mechanism is
/// `Unsupported`; a missing credential is `Required`. The key step answers
/// with the username the remote proposed; the plaintext step answers with
/// the configured username, falling back to the proposed one.
pub open spec fn resolve_model(
    mask: AllowedMask,
    creds: Option<Credentials>,
    proposed: Option<Seq<char>>,
) -> Result<DecisionModel, AuthError> {
    if username_step_applies(mask, creds) {
        Ok(DecisionModel::Username {
            username: configured_username(creds->Some_0)->Some_0@,
        })
    } else if ssh_step_applies(mask, creds) {
        let ssh = creds->Some_0->Ssh_0;
        if proposed is None {
            Err(AuthError::Unsupported)
        } else {
            Ok(DecisionModel::SshKeyInline {
                username: proposed->Some_0,
                public_key: opt_chars(ssh.public_key),
                private_key: ssh.private_key@,
                passphrase: opt_chars(ssh.passphrase),
            })
        }
    } else if plaintext_step_applies(mask, creds) {
        let p = creds->Some_0->Password_0;
        if p.username is Some {
            Ok(DecisionModel::Plaintext { username: p.username->Some_0@, password: p.password@ })
        } else if proposed is Some {
            Ok(DecisionModel::Plaintext { username: proposed->Some_0, password: p.password@ })
        } else {
            Err(AuthError::Unsupported)
        }
    } else if creds is None {
        Err(AuthError::Required)
    } else {
        Err(AuthError::Unsupported)
    }
}

pub open spec fn result_model(r: Result<CredDecision, AuthError>) -> Result<DecisionModel, AuthError> {
    match r {
        Ok(d) => Ok(decision_model(d)),
        Err(e) => Err(e),
    }
}

fn clone_opt_string(o: &Option<String>) -> (r: Option<String>)
    ensures
        r == *o,
{
    match o {
        Some(s) => Some(s.clone()),
        None => None,
    }
}

/// Decide which concrete credential answers the current challenge.
///
/// The decision is a pure function of the allowed mask, the configured
/// credential and the username proposed by the remote; it is re-entrant, so a
/// single fetch may consult it once per challenge as the remote negotiates
/// mechanisms. It answers every input: a step that applies but has no
/// username to answer with fails, it never panics and never skips silently.
pub fn resolve(
    mask: AllowedMask,
    creds: &Option<Credentials>,
    proposed: &Option<String>,
) -> (r: Result<CredDecision, AuthError>)
    ensures
        result_model(r) == resolve_model(mask, *creds, opt_chars(*proposed)),
{
    if mask.username {
        match creds {
            Some(Credentials::Ssh(ssh)) => {
                if let Some(u) = &ssh.username {
                    return Ok(CredDecision::Username { username: u.clone() });
                }
            }
            Some(Credentials::Password(p)) => {
                if let Some(u) = &p.username {
                    return Ok(CredDecision::Username { username: u.clone() });
                }
            }
            None => {}
        }
    }
    if mask.ssh_memory {
        if let Some(Credentials::Ssh(ssh)) = creds {
            let username = match proposed {
                Some(u) => u.clone(),
                None => {
                    return Err(AuthError::Unsupported);
                }
            };
            return Ok(CredDecision::SshKeyInline {
                username,
                public_key: clone_opt_string(&ssh.public_key),
                private_key: ssh.private_key.clone(),
                passphrase: clone_opt_string(&ssh.passphrase),
            });
        }
    }
    if mask.userpass_plaintext {
        if let Some(Credentials::Password(p)) = creds {
            let username = match &p.username {
                Some(u) => u.clone(),
                None => match proposed {
                    Some(u) => u.clone(),
                    None => {
                        return Err(AuthError::Unsupported);
                    }
                },
            };
            return Ok(CredDecision::Plaintext { username, password: p.password.clone() });
        }
    }
    match creds {
        None => Err(AuthError::Required),
        Some(_) => Err(AuthError::Unsupported),
    }
}

/// Answer one credential challenge of the fetch negotiation: resolve a
/// decision, then hand back the concrete credential object it calls for. A
/// resolution failure becomes an error carrying the resolver's message, so
/// the fetch fails with that message rather than silently skipping the
/// challenge; a username-only or plaintext decision over NUL-free text is
/// answered successfully.
pub(crate) fn answer_challenge(
    mask: AllowedMask,
    creds: &Option<Credentials>,
    proposed: &Option<String>,
) -> (r: Result<git2::Cred, git2::Error>)
    ensures
        resolve_model(mask, *creds, opt_chars(*proposed)) is Err ==> r is Err,
        (resolve_model(mask, *creds, opt_chars(*proposed)) matches Ok(
            DecisionModel::Username { username },
        ) && nul_free(username)) ==> r is Ok,
        (resolve_model(mask, *creds, opt_chars(*proposed)) matches Ok(
            DecisionModel::Plaintext { username, password },
        ) && nul_free(username) && nul_free(password)) ==> r is Ok,
{
    match resolve(mask, creds, proposed) {
        Ok(d) => match d {
            CredDecision::Username { username } => crate::git::cred_username(&username),
            CredDecision::SshKeyInline { username, public_key, private_key, passphrase } =>
                crate::git::cred_ssh_key_inline(&username, &public_key, &private_key, &passphrase),
            CredDecision::Plaintext { username, password } =>
                crate::git::cred_userpass(&username, &password),
        },
        Err(e) => Err(crate::git::git_error_from_message(&e.message())),
    }
}

/// Credential precedence law: with a configured password credential that
/// carries a username, a challenge whose mask permits both username-only and
/// plaintext negotiation is answered with the username alone; a later
/// challenge whose mask permits plaintext but no longer username-only falls
/// through to the plaintext credential, carrying the configured username and
/// password.
pub proof fn lemma_credential_precedence(
    first: AllowedMask,
    second: AllowedMask,
    p: crate::config::PasswordCredentials,
    proposed: Seq<char>,
)
    requires
        first.username,
        first.userpass_plaintext,
        second.userpass_plaintext,
        !second.username,
        !second.ssh_memory,
        p.username is Some,
    ensures
        resolve_model(first, Some(Credentials::Password(p)), Some(proposed))
            == Ok::<DecisionModel, AuthError>(DecisionModel::Username {
            username: p.username->Some_0@,
        }),
        resolve_model(second, Some(Credentials::Password(p)), Some(proposed))
            == Ok::<DecisionModel, AuthError>(DecisionModel::Plaintext {
            username: p.username->Some_0@,
            password: p.password@,
        }),
{
}

} // verus!
