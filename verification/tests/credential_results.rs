use fixmytex::error::ErrorKind;
use fixmytex::keyring_utils::{
    delete_result, retrieve_result, store_result, Failure, Stage, StoreFault,
};

const FAULTS: [StoreFault; 8] = [
    StoreFault::PlatformFailure,
    StoreFault::NoStorageAccess,
    StoreFault::NoEntry,
    StoreFault::BadEncoding,
    StoreFault::TooLong,
    StoreFault::Invalid,
    StoreFault::Ambiguous,
    StoreFault::Other,
];

#[test]
fn success_passes_through() {
    assert_eq!(store_result(Ok(())), Ok(()));
    assert_eq!(retrieve_result(Ok("sk-test-123".to_string())), Ok("sk-test-123".to_string()));
    assert_eq!(delete_result(Ok(())), Ok(()));
}

#[test]
fn store_is_unavailable_when_the_store_cannot_be_reached() {
    for fault in FAULTS {
        assert_eq!(
            store_result(Err(Failure { stage: Stage::Open, fault })),
            Err(ErrorKind::StoreUnavailable)
        );
    }
    assert_eq!(
        store_result(Err(Failure { stage: Stage::Access, fault: StoreFault::NoStorageAccess })),
        Err(ErrorKind::StoreUnavailable)
    );
}

#[test]
fn store_is_write_failed_otherwise() {
    for fault in FAULTS {
        if fault != StoreFault::NoStorageAccess {
            assert_eq!(
                store_result(Err(Failure { stage: Stage::Access, fault })),
                Err(ErrorKind::WriteFailed)
            );
        }
    }
}

#[test]
fn retrieve_is_not_found_only_for_a_missing_entry() {
    for fault in FAULTS {
        let expected = if fault == StoreFault::NoEntry {
            ErrorKind::NotFound
        } else {
            ErrorKind::StoreUnavailable
        };
        assert_eq!(
            retrieve_result(Err(Failure { stage: Stage::Access, fault })),
            Err(expected)
        );
        assert_eq!(
            retrieve_result(Err(Failure { stage: Stage::Open, fault })),
            Err(ErrorKind::StoreUnavailable)
        );
    }
}

#[test]
fn delete_is_not_found_only_for_a_missing_entry() {
    for fault in FAULTS {
        let expected = if fault == StoreFault::NoEntry {
            ErrorKind::NotFound
        } else {
            ErrorKind::DeleteFailed
        };
        assert_eq!(delete_result(Err(Failure { stage: Stage::Access, fault })), Err(expected));
        assert_eq!(
            delete_result(Err(Failure { stage: Stage::Open, fault })),
            Err(ErrorKind::DeleteFailed)
        );
    }
}
