use zingo_bridge::store::{SessionHandle, SessionStore};

#[test]
fn new_store_is_empty() {
    let store = SessionStore::new();
    assert_eq!(store.get(), None);
}

#[test]
fn set_replaces_unconditionally() {
    let mut store = SessionStore::new();
    let first = store.mint();
    let second = store.mint();
    store.set(first);
    assert_eq!(store.get(), Some(first));
    store.set(second);
    assert_eq!(store.get(), Some(second));
}

#[test]
fn clear_empties_the_slot() {
    let mut store = SessionStore::new();
    let handle = store.mint();
    store.set(handle);
    store.clear();
    assert_eq!(store.get(), None);
}

#[test]
fn minted_handles_are_distinct() {
    let mut store = SessionStore::new();
    let a = store.mint();
    let b = store.mint();
    let c = store.mint();
    assert_ne!(a, b);
    assert_ne!(b, c);
    assert_ne!(a, c);
}

#[test]
fn get_does_not_consume_the_handle() {
    let mut store = SessionStore::new();
    let handle = store.mint();
    store.set(handle);
    let first_read = store.get();
    let second_read = store.get();
    assert_eq!(first_read, Some(handle));
    assert_eq!(second_read, Some(handle));
}

#[test]
fn handle_copies_share_identity() {
    let mut store = SessionStore::new();
    let handle = store.mint();
    let background_copy: SessionHandle = handle;
    store.set(handle);
    store.clear();
    // the store no longer reaches the session, but a copy taken before the
    // clear still names it
    assert_eq!(background_copy, handle);
    assert_eq!(store.get(), None);
}
