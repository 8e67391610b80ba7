use fixmytex::error::ErrorKind;
use fixmytex::keyring_utils::{delete_api_key, get_api_key};

// These run against whatever store the keyring picks for the platform. The
// provider is one that nobody stores a key for.

#[test]
fn default_store_has_no_key_for_an_unknown_provider() {
    assert_eq!(get_api_key("fixmytex-test-never-stored"), Err(ErrorKind::NotFound));
}

#[test]
fn default_store_cannot_delete_the_key_of_an_unknown_provider() {
    assert_eq!(delete_api_key("fixmytex-test-never-stored"), Err(ErrorKind::NotFound));
}
