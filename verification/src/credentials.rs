//! Credentials and the credential store.
//!
//! A `Credential` pairs a username with a password and can be scrubbed from
//! memory when no longer needed.  The `CredentialVault` is the store the
//! worker resolves named references against; it is held as an owned value
//! rather than ambient state, and the platform adapter fills it.

use vstd::prelude::*;

verus! {

/// Username and password pair used for remote authentication.
///
/// Call `scrub` before releasing a credential so that the secret bytes are
/// overwritten rather than merely freed.
#[derive(Debug)]
pub struct Credential {
    /// Username (e.g., a domain-qualified account name)
    pub username: String,
    /// Password or token
    pub password: String,
}

impl Credential {
    /// Create a new credential.
    pub fn new(username: String, password: String) -> (r: Credential)
        ensures
            r.username == username,
            r.password == password,
    {
        Credential { username, password }
    }

    /// Copy the credential for handing to another phase.
    pub fn duplicate(&self) -> (r: Credential)
        ensures
            r.username@ == self.username@,
            r.password@ == self.password@,
    {
        Credential { username: self.username.clone(), password: self.password.clone() }
    }

    /// Overwrite both fields in place, leaving the credential empty.
    pub fn scrub(&mut self)
        ensures
            final (self).username@ == Seq::<char>::empty(),
            final (self).password@ == Seq::<char>::empty(),
    {
        zeroize_string(&mut self.username);
        zeroize_string(&mut self.password);
    }
}

/// Relies on `zeroize::Zeroize for String`: the string's bytes are
/// overwritten with zeroes and the string is left cleared.
#[verifier::external_body]
fn zeroize_string(s: &mut String)
    ensures
        final (s)@ == Seq::<char>::empty(),
{
    zeroize::Zeroize::zeroize(s);
}

/// Errors from credential store operations.
#[derive(Debug)]
pub enum VaultError {
    NotFound(String),
    AccessDenied(String),
    InvalidFormat(String),
    WindowsError(String),
    Utf16Error,
}

impl VaultError {
    /// The error's message text.
    pub open spec fn spec_message(self) -> Seq<char> {
        match self {
            VaultError::NotFound(t) => "Credential not found: "@ + t@,
            VaultError::AccessDenied(t) => "Access denied to credential: "@ + t@,
            VaultError::InvalidFormat(t) => "Invalid credential format: "@ + t@,
            VaultError::WindowsError(t) => "Windows API error: "@ + t@,
            VaultError::Utf16Error => "UTF-16 conversion error"@,
        }
    }

    /// Render the error as text.
    pub fn message(&self) -> (r: String)
        ensures
            r@ == self.spec_message(),
    {
        match self {
            VaultError::NotFound(t) => String::from_str("Credential not found: ").concat(
                t.as_str(),
            ),
            VaultError::AccessDenied(t) => String::from_str(
                "Access denied to credential: ",
            ).concat(t.as_str()),
            VaultError::InvalidFormat(t) => String::from_str(
                "Invalid credential format: ",
            ).concat(t.as_str()),
            VaultError::WindowsError(t) => String::from_str("Windows API error: ").concat(
                t.as_str(),
            ),
            VaultError::Utf16Error => String::from_str("UTF-16 conversion error"),
        }
    }
}

/// Copy a vault error, preserving its value.
pub fn duplicate_vault_error(e: &VaultError) -> (r: VaultError)
    ensures
        r == *e,
{
    match e {
        VaultError::NotFound(t) => VaultError::NotFound(t.clone()),
        VaultError::AccessDenied(t) => VaultError::AccessDenied(t.clone()),
        VaultError::InvalidFormat(t) => VaultError::InvalidFormat(t.clone()),
        VaultError::WindowsError(t) => VaultError::WindowsError(t.clone()),
        VaultError::Utf16Error => VaultError::Utf16Error,
    }
}

/// One stored entry: target name, username, password.
#[derive(Debug)]
pub struct VaultEntry {
    pub target: String,
    pub username: String,
    pub password: String,
}

/// In-memory credential store, looked up by target name.
#[derive(Debug)]
pub struct CredentialVault {
    pub entries: Vec<VaultEntry>,
}

/// The index of the entry stored under `target`, if any; lookups find the
/// most recently stored entry for a name.
pub open spec fn spec_vault_find(entries: Seq<VaultEntry>, target: Seq<char>) -> Option<int>
    decreases entries.len(),
{
    if entries.len() == 0 {
        None
    } else if entries.last().target@ == target {
        Some(entries.len() - 1)
    } else {
        spec_vault_find(entries.drop_last(), target)
    }
}

/// A name is present exactly when some entry carries it.
pub proof fn lemma_vault_find_props(entries: Seq<VaultEntry>, target: Seq<char>)
    ensures
        match spec_vault_find(entries, target) {
            Some(i) => 0 <= i < entries.len() && entries[i].target@ == target,
            None => forall|i: int| 0 <= i < entries.len() ==> (#[trigger] entries[i]).target@
                != target,
        },
    decreases entries.len(),
{
    if entries.len() > 0 && entries.last().target@ != target {
        let d = entries.drop_last();
        lemma_vault_find_props(d, target);
        match spec_vault_find(d, target) {
            Some(i) => {
                assert(entries[i] == d[i]);
            },
            None => {
                assert forall|i: int|
                    0 <= i < entries.len() implies (#[trigger] entries[i]).target@ != target by {
                    if i < entries.len() - 1 {
                        assert(entries[i] == d[i]);
                        assert(d[i].target@ != target);
                    } else {
                        assert(entries[i] == entries.last());
                    }
                }
            },
        }
    }
}

impl CredentialVault {
    /// Create an empty store.
    pub fn new() -> (r: CredentialVault)
        ensures
            r.entries@ == Seq::<VaultEntry>::empty(),
    {
        let r = CredentialVault { entries: Vec::new() };
        proof {
            assert(r.entries@ =~= Seq::<VaultEntry>::empty());
        }
        r
    }

    /// A store seeded with the well-known development entries: the API
    /// token and the file-transfer account.
    pub fn with_default_entries() -> (r: CredentialVault)
        ensures
            r.entries@.len() == 2,
            spec_vault_find(r.entries@, "DeploymentWorker:API"@) matches Some(i)
                && r.entries@[i].username@ == "api-user"@ && r.entries@[i].password@
                == "api-token-12345"@,
            spec_vault_find(r.entries@, "DeploymentWorker:SMB"@) matches Some(i)
                && r.entries@[i].username@ == "DOMAIN\\admin"@ && r.entries@[i].password@
                == "smb-password"@,
    {
        proof {
            reveal_strlit("DeploymentWorker:API");
            reveal_strlit("DeploymentWorker:SMB");
            assert("DeploymentWorker:API"@[17] != "DeploymentWorker:SMB"@[17]);
            assert("DeploymentWorker:API"@ != "DeploymentWorker:SMB"@);
        }
        let mut vault = CredentialVault::new();
        vault.add_mock_credential("DeploymentWorker:API", "api-user", "api-token-12345");
        vault.add_mock_credential("DeploymentWorker:SMB", "DOMAIN\\admin", "smb-password");
        proof {
            assert(vault.entries@.drop_last()[0] == vault.entries@[0]);
        }
        vault
    }

    /// Retrieve a credential stored under `target_name`.
    pub fn get_credential(&self, target_name: &str) -> (r: Result<Credential, VaultError>)
        ensures
            match spec_vault_find(self.entries@, target_name@) {
                Some(i) => r matches Ok(c) && c.username@ == self.entries@[i].username@
                    && c.password@ == self.entries@[i].password@,
                None => r matches Err(e) && e matches VaultError::NotFound(t) && t@
                    == target_name@,
            },
    {
        proof {
            lemma_vault_find_props(self.entries@, target_name@);
        }
        let n = self.entries.len();
        proof {
            assert(self.entries@.subrange(0, n as int) =~= self.entries@);
        }
        let mut i: usize = n;
        while i > 0
            invariant
                i <= n,
                n == self.entries@.len(),
                spec_vault_find(self.entries@, target_name@) == spec_vault_find(
                    self.entries@.subrange(0, i as int),
                    target_name@,
                ),
            decreases i,
        {
            let ghost pre = self.entries@.subrange(0, i as int);
            i = i - 1;
            let entry = &self.entries[i];
            if crate::strutil::str_eq(entry.target.as_str(), target_name) {
                proof {
                    assert(pre.last() == self.entries@[i as int]);
                    assert(spec_vault_find(pre, target_name@) == Some(i as int));
                }
                return Ok(Credential::new(entry.username.clone(), entry.password.clone()));
            }
            proof {
                assert(pre.last() == self.entries@[i as int]);
                assert(pre.drop_last() =~= self.entries@.subrange(0, i as int));
            }
        }
        proof {
            assert(self.entries@.subrange(0, 0) =~= Seq::<VaultEntry>::empty());
        }
        Err(VaultError::NotFound(String::from_str(target_name)))
    }

    /// Check whether a credential exists under `target_name`.
    pub fn credential_exists(&self, target_name: &str) -> (r: bool)
        ensures
            r == (spec_vault_find(self.entries@, target_name@) is Some),
    {
        match self.get_credential(target_name) {
            Ok(_) => true,
            Err(_) => false,
        }
    }

    /// Store a credential under `target_name`; a later lookup finds this
    /// entry.
    pub fn store_credential(&mut self, target_name: &str, username: &str, password: &str) -> (r:
        Result<(), VaultError>)
        ensures
            r is Ok,
            final (self).entries@.len() == old(self).entries@.len() + 1,
            final (self).entries@.drop_last() == old(self).entries@,
            final (self).entries@.last().target@ == target_name@,
            final (self).entries@.last().username@ == username@,
            final (self).entries@.last().password@ == password@,
            spec_vault_find(final (self).entries@, target_name@) == Some(
                old(self).entries@.len() as int,
            ),
    {
        self.add_mock_credential(target_name, username, password);
        Ok(())
    }

    /// Add an entry to the store (used by tests and adapters to seed it).
    pub fn add_mock_credential(&mut self, target_name: &str, username: &str, password: &str)
        ensures
            final (self).entries@.len() == old(self).entries@.len() + 1,
            final (self).entries@.drop_last() == old(self).entries@,
            final (self).entries@.last().target@ == target_name@,
            final (self).entries@.last().username@ == username@,
            final (self).entries@.last().password@ == password@,
            spec_vault_find(final (self).entries@, target_name@) == Some(
                old(self).entries@.len() as int,
            ),
    {
        self.entries.push(
            VaultEntry {
                target: String::from_str(target_name),
                username: String::from_str(username),
                password: String::from_str(password),
            },
        );
        proof {
            assert(self.entries@.last().target@ == target_name@);
            assert(self.entries@.drop_last() =~= old(self).entries@);
        }
    }

    /// The fixed development credentials: the well-known worker entries plus
    /// a generic fallback for any other worker-prefixed name.
    pub fn get_mock_credential(target_name: &str) -> (r: Result<Credential, VaultError>)
        ensures
            target_name@ == "DeploymentWorker:API"@ ==> (r matches Ok(c) && c.username@
                == "api-user"@ && c.password@ == "api-token-12345"@),
            (target_name@ == "DeploymentWorker:SMB"@ || target_name@ == "DeploymentWorker:Mock"@)
                ==> (r matches Ok(c) && c.username@ == "DOMAIN\\admin"@ && c.password@
                == "mock-password"@),
            !(target_name@ == "DeploymentWorker:API"@ || target_name@ == "DeploymentWorker:SMB"@
                || target_name@ == "DeploymentWorker:Mock"@) ==> {
                if "DeploymentWorker:"@.len() <= target_name@.len() && target_name@.subrange(
                    0,
                    "DeploymentWorker:"@.len() as int,
                ) == "DeploymentWorker:"@ {
                    r matches Ok(c) && c.username@ == "mock-user"@ && c.password@
                        == "mock-password"@
                } else {
                    r matches Err(e) && e matches VaultError::NotFound(t) && t@ == target_name@
                }
            },
    {
        proof {
            reveal_strlit("DeploymentWorker:API");
            reveal_strlit("DeploymentWorker:SMB");
            reveal_strlit("DeploymentWorker:Mock");
            assert("DeploymentWorker:API"@[17] != "DeploymentWorker:SMB"@[17]);
            assert("DeploymentWorker:API"@ != "DeploymentWorker:SMB"@);
            assert("DeploymentWorker:API"@.len() != "DeploymentWorker:Mock"@.len());
            assert("DeploymentWorker:API"@ != "DeploymentWorker:Mock"@);
        }
        if crate::strutil::str_eq(target_name, "DeploymentWorker:API") {
            Ok(Credential::new(String::from_str("api-user"), String::from_str("api-token-12345")))
        } else if crate::strutil::str_eq(target_name, "DeploymentWorker:SMB")
            || crate::strutil::str_eq(target_name, "DeploymentWorker:Mock") {
            Ok(
                Credential::new(
                    String::from_str("DOMAIN\\admin"),
                    String::from_str("mock-password"),
                ),
            )
        } else if crate::strutil::has_prefix(target_name, "DeploymentWorker:") {
            Ok(Credential::new(String::from_str("mock-user"), String::from_str("mock-password")))
        } else {
            Err(VaultError::NotFound(String::from_str(target_name)))
        }
    }
}

} // verus!
