use minirender::MutHandle;

#[test]
fn mut_handle_locks_its_value() {
    let handle = MutHandle::new(5u32);
    let other = handle.clone();
    {
        let mut guard = handle.lock().unwrap();
        *guard += 1;
    }
    {
        let mut guard = other.borrow();
        *guard += 1;
    }
    assert_eq!(*handle.borrow(), 7);
}

#[test]
fn handles_dereference_to_what_they_share() {
    let handle = minirender::Handle::new(String::from("shared"));
    assert_eq!(handle.len(), 6);
    assert_eq!(*handle, "shared");
    let locked = MutHandle::new(3u8);
    *locked.get().lock().unwrap() = 4;
    assert_eq!(*locked.borrow(), 4);
}
