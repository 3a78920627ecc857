use save_on_write::{le_bytes, DataReadError, LeU64Codec, MemStorage, SaveCallback, SoW};

#[test]
fn le_bytes_exact_values() {
    assert_eq!(le_bytes(0x0102030405060708), vec![8, 7, 6, 5, 4, 3, 2, 1]);
    assert_eq!(le_bytes(0), vec![0; 8]);
    assert_eq!(le_bytes(u64::MAX), vec![0xff; 8]);
}

#[test]
fn save_then_load_round_trips() {
    let store = SoW::new_from_item(42u64, LeU64Codec, MemStorage::new()).unwrap();
    let (value, callback) = store.into_listener().into_parts();
    assert_eq!(value, 42);
    let (codec, storage) = callback.into_parts();
    assert_eq!(storage.stored().as_ref().unwrap(), &le_bytes(42));

    let reloaded = SoW::new_from_file(codec, storage).unwrap();
    let lck = reloaded.lock();
    assert_eq!(*lck.read(), 42);
    let (_, fired) = lck.close();
    assert!(!fired);
}

#[test]
fn missing_contents_is_read_error() {
    let r: Result<SoW<u64, LeU64Codec, MemStorage>, DataReadError> =
        SoW::new_from_file(LeU64Codec, MemStorage::new());
    assert!(matches!(r, Err(DataReadError::ReadError)));
}

#[test]
fn undecodable_contents_is_decode_error() {
    let storage = MemStorage::with_bytes(vec![1, 2, 3]);
    let r: Result<SoW<u64, LeU64Codec, MemStorage>, DataReadError> =
        SoW::new_from_file(LeU64Codec, storage);
    assert!(matches!(r, Err(DataReadError::DecodeError)));
}

#[test]
fn meaningful_change_is_saved_on_close() {
    let store = SoW::new_from_item(5u64, LeU64Codec, MemStorage::new()).unwrap();
    let mut lck = store.lock();
    *lck.get_mut() = 6;
    let (listener, fired) = lck.close();
    assert!(fired);
    let (value, callback) = listener.into_parts();
    assert_eq!(value, 6);
    let (_, storage) = callback.into_parts();
    assert_eq!(storage.stored().as_ref().unwrap(), &le_bytes(6));
}

#[test]
fn no_op_mutation_is_not_saved() {
    let store = SoW::new_from_item(5u64, LeU64Codec, MemStorage::new()).unwrap();
    let mut lck = store.lock();
    *lck.get_mut() = 5;
    assert!(lck.detected_possible_change());
    assert!(!lck.detected_change());
    let (listener, fired) = lck.close();
    assert!(!fired);
    let (_, callback) = listener.into_parts();
    let (_, storage) = callback.into_parts();
    assert_eq!(storage.stored().as_ref().unwrap(), &le_bytes(5));
}

#[test]
fn rebuilt_store_keeps_saving() {
    let store = SoW::new_from_item(1u64, LeU64Codec, MemStorage::new()).unwrap();
    let mut lck = store.lock();
    *lck.get_mut() = 2;
    let (listener, fired) = lck.close();
    assert!(fired);

    let store = SoW::from_listener(listener);
    let mut lck = store.lock();
    *lck.get_mut() = 3;
    let (listener, fired) = lck.close();
    assert!(fired);
    let (value, callback) = listener.into_parts();
    assert_eq!(value, 3);
    let (_, storage) = callback.into_parts();
    assert_eq!(storage.stored().as_ref().unwrap(), &le_bytes(3));
}

#[test]
fn save_callback_reports_written_bytes() {
    let mut callback = SaveCallback::new(LeU64Codec, MemStorage::new());
    assert!(callback.save(&9u64).is_ok());
    assert_eq!(callback.storage_ref().stored().as_ref().unwrap(), &le_bytes(9));
}
