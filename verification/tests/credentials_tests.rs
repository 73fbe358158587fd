use deploy_worker::credentials::{Credential, CredentialVault, VaultError};

#[test]
fn test_credential_zeroize() {
    // Create a credential
    let cred = Credential::new("user".to_string(), "password".to_string());
    assert_eq!(cred.username, "user");
    assert_eq!(cred.password, "password");
    // When released, the fields are scrubbed; see test_credential_scrub
}

#[test]
fn test_credential_scrub() {
    let mut cred = Credential::new("user".to_string(), "password".to_string());
    cred.scrub();
    assert_eq!(cred.username, "");
    assert_eq!(cred.password, "");
}

#[test]
fn test_mock_credential_retrieval() {
    let vault = CredentialVault::with_default_entries();
    let cred = vault.get_credential("DeploymentWorker:API").unwrap();
    assert_eq!(cred.username, "api-user");
    assert!(!cred.password.is_empty());
}

#[test]
fn test_mock_credential_not_found() {
    let vault = CredentialVault::with_default_entries();
    let result = vault.get_credential("NonExistent:Credential");
    assert!(matches!(result, Err(VaultError::NotFound(_))));
}

#[test]
fn test_credential_exists() {
    let vault = CredentialVault::with_default_entries();
    assert!(vault.credential_exists("DeploymentWorker:API"));
    assert!(!vault.credential_exists("NonExistent:Credential"));
}

#[test]
fn test_store_credential_overrides() {
    let mut vault = CredentialVault::new();
    vault
        .store_credential("Worker:X", "first", "pw1")
        .unwrap();
    vault
        .store_credential("Worker:X", "second", "pw2")
        .unwrap();
    let cred = vault.get_credential("Worker:X").unwrap();
    assert_eq!(cred.username, "second");
    assert_eq!(cred.password, "pw2");
}

#[test]
fn test_get_mock_credential_fixed_entries() {
    let c = CredentialVault::get_mock_credential("DeploymentWorker:API").unwrap();
    assert_eq!(c.username, "api-user");
    assert_eq!(c.password, "api-token-12345");
    let c = CredentialVault::get_mock_credential("DeploymentWorker:Mock").unwrap();
    assert_eq!(c.username, "DOMAIN\\admin");
    let c = CredentialVault::get_mock_credential("DeploymentWorker:Other").unwrap();
    assert_eq!(c.username, "mock-user");
    assert!(matches!(
        CredentialVault::get_mock_credential("Elsewhere"),
        Err(VaultError::NotFound(_))
    ));
}

#[test]
fn test_vault_error_messages() {
    let e = VaultError::NotFound("Worker:Y".to_string());
    assert_eq!(e.message(), "Credential not found: Worker:Y");
    let e = VaultError::Utf16Error;
    assert_eq!(e.message(), "UTF-16 conversion error");
}
