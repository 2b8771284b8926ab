use nanocore::registry::Registry;
use nanocore::state::BridgeError;

#[test]
fn handles_are_issued_in_order() {
    let mut reg: Registry<&str> = Registry::new();
    assert_eq!(reg.insert("a"), Ok(0));
    assert_eq!(reg.insert("b"), Ok(1));
    assert_eq!(reg.len(), 2);
    assert_eq!(reg.lookup(0), Ok(&"a"));
    assert_eq!(reg.lookup(1), Ok(&"b"));
}

#[test]
fn destroyed_handle_is_never_valid_again() {
    let mut reg: Registry<u32> = Registry::new();
    let h = reg.insert(10).unwrap();
    reg.insert(11).unwrap();
    assert_eq!(reg.destroy(h), Ok(()));
    assert_eq!(reg.lookup(h), Err(BridgeError::InvalidHandle));
    let next = reg.insert(12).unwrap();
    assert_eq!(next, 2);
    assert_eq!(reg.lookup(h), Err(BridgeError::InvalidHandle));
    assert_eq!(reg.lookup(1), Ok(&11));
    // Destroying a tombstone again is refused and changes nothing.
    assert_eq!(reg.destroy(h), Err(BridgeError::InvalidHandle));
    assert_eq!(reg.lookup(1), Ok(&11));
    assert_eq!(reg.lookup(h), Err(BridgeError::InvalidHandle));
}

#[test]
fn unknown_handles_are_rejected() {
    let mut reg: Registry<u32> = Registry::new();
    assert_eq!(reg.lookup(0), Err(BridgeError::InvalidHandle));
    assert_eq!(reg.lookup(-1), Err(BridgeError::InvalidHandle));
    reg.insert(1).unwrap();
    assert_eq!(reg.lookup(1), Err(BridgeError::InvalidHandle));
    assert_eq!(reg.destroy(1), Err(BridgeError::InvalidHandle));
    assert_eq!(reg.destroy(-1), Err(BridgeError::InvalidHandle));
    assert_eq!(reg.lookup(0), Ok(&1));
}
