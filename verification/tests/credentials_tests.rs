use depot::credentials::{
    credential_found, keychain_target, step_result, CredentialStore, KeychainStep, KEYRING_SERVICE,
};
use depot::error::DepotError;

#[test]
fn test_keyring_operations() {
    let test_key = "test_credential";
    let test_value = "test_password_123";

    let _ = CredentialStore::delete(test_key);

    let store_result = CredentialStore::store(test_key, test_value);
    if store_result.is_err() {
        // The keychain may not be reachable where the tests run.
        println!("Skipping keyring test: keychain not available");
        return;
    }
    assert!(store_result.is_ok());

    let retrieved = CredentialStore::retrieve(test_key);
    if retrieved.is_err() {
        let _ = CredentialStore::delete(test_key);
        println!("Skipping keyring test: keychain retrieval failed");
        return;
    }
    assert_eq!(retrieved.unwrap(), test_value);

    assert!(CredentialStore::is_stored(test_key));

    assert!(CredentialStore::delete(test_key).is_ok());
    assert!(!CredentialStore::is_stored(test_key));
}

#[test]
fn test_credential_store_exists_nonexistent() {
    let nonexistent_key = "nonexistent_key_12345_abcdef";
    let _ = CredentialStore::delete(nonexistent_key);
    assert!(!CredentialStore::is_stored(nonexistent_key));
}

#[test]
fn test_credential_store_retrieve_nonexistent() {
    let result = CredentialStore::retrieve("definitely_nonexistent_key_xyz");
    assert!(result.is_err());
}

#[test]
fn test_credential_store_delete_nonexistent() {
    let result = CredentialStore::delete("definitely_nonexistent_key_delete_test");
    let _ = result;
}

#[test]
fn test_keyring_service_constant() {
    assert_eq!(KEYRING_SERVICE, "lpm");
}

#[test]
fn keychain_errors_carry_the_step() {
    match step_result::<()>(KeychainStep::Store, Err("locked".to_string())) {
        Err(DepotError::Package(m)) => assert_eq!(m, "Failed to store credential in keychain: locked"),
        other => panic!("unexpected {:?}", other),
    }
    match step_result::<()>(KeychainStep::Entry, Err("bad".to_string())) {
        Err(DepotError::Package(m)) => assert_eq!(m, "Failed to create keyring entry: bad"),
        other => panic!("unexpected {:?}", other),
    }
    match step_result(KeychainStep::Retrieve, Ok("secret".to_string())) {
        Ok(v) => assert_eq!(v, "secret"),
        other => panic!("unexpected {:?}", other),
    }
    assert!(matches!(
        step_result::<()>(KeychainStep::Delete, Err("x".to_string())),
        Err(DepotError::Package(m)) if m == "Failed to delete credential from keychain: x"
    ));
}

#[test]
fn keychain_target_names_service_and_key() {
    let t = keychain_target("github_token");
    assert_eq!(t.service, "lpm");
    assert_eq!(t.service, KEYRING_SERVICE);
    assert_eq!(t.user, "github_token");
}

#[test]
fn credential_found_when_retrieval_succeeds() {
    assert!(credential_found(&Ok("secret".to_string())));
    assert!(!credential_found(&Err(DepotError::Package("none".to_string()))));
}
