use pallet_ismp::{ensure_signed, Error, Event, Origin, Pallet, MAX_MESSAGE_LEN};

#[test]
fn store_message_works() {
    let mut store = Pallet::new();
    let message = vec![1, 2, 3, 4];
    assert_eq!(store.store_message(Origin::Signed(1), message.clone()), Ok(()));
    assert_eq!(store.messages(1), message);
}

#[test]
fn send_message_works() {
    let mut store = Pallet::new();
    let message = vec![1, 2, 3, 4];
    assert_eq!(store.store_message(Origin::Signed(1), message.clone()), Ok(()));
    assert_eq!(store.send_message(Origin::Signed(1), 2), Ok(()));
    assert_eq!(store.messages(2), message);
    assert_eq!(store.messages(1), Vec::<u8>::new());
}

#[test]
fn send_from_fresh_store_finds_nothing() {
    let mut store = Pallet::new();
    assert_eq!(store.send_message(Origin::Signed(1), 2), Err(Error::NoMessageFound));
    assert_eq!(store.messages(1), Vec::<u8>::new());
    assert_eq!(store.messages(2), Vec::<u8>::new());
    assert!(store.events().is_empty());
}

#[test]
fn message_of_257_bytes_is_too_long() {
    let mut store = Pallet::new();
    assert_eq!(store.store_message(Origin::Signed(1), vec![7; 257]), Err(Error::MessageTooLong));
    assert_eq!(store.messages(1), Vec::<u8>::new());
    assert!(store.events().is_empty());
}

#[test]
fn too_long_message_keeps_previous_one() {
    let mut store = Pallet::new();
    assert_eq!(store.store_message(Origin::Signed(1), vec![9, 9]), Ok(()));
    assert_eq!(store.store_message(Origin::Signed(1), vec![0; 1000]), Err(Error::MessageTooLong));
    assert_eq!(store.messages(1), vec![9, 9]);
    assert_eq!(store.events().len(), 1);
}

#[test]
fn message_of_exactly_the_limit_is_stored() {
    let mut store = Pallet::new();
    let message = vec![5u8; MAX_MESSAGE_LEN];
    assert_eq!(MAX_MESSAGE_LEN, 256);
    assert_eq!(store.store_message(Origin::Signed(3), message.clone()), Ok(()));
    assert_eq!(store.messages(3), message);
}

#[test]
fn second_store_replaces_first() {
    let mut store = Pallet::new();
    assert_eq!(store.store_message(Origin::Signed(1), vec![1, 2, 3, 4, 5]), Ok(()));
    assert_eq!(store.store_message(Origin::Signed(1), vec![8]), Ok(()));
    assert_eq!(store.messages(1), vec![8]);
}

#[test]
fn send_overwrites_recipient_and_keeps_others() {
    let mut store = Pallet::new();
    assert_eq!(store.store_message(Origin::Signed(1), vec![1, 1]), Ok(()));
    assert_eq!(store.store_message(Origin::Signed(2), vec![2, 2, 2]), Ok(()));
    assert_eq!(store.store_message(Origin::Signed(3), vec![3]), Ok(()));
    assert_eq!(store.send_message(Origin::Signed(1), 2), Ok(()));
    assert_eq!(store.messages(1), Vec::<u8>::new());
    assert_eq!(store.messages(2), vec![1, 1]);
    assert_eq!(store.messages(3), vec![3]);
}

#[test]
fn send_to_self_keeps_message() {
    let mut store = Pallet::new();
    assert_eq!(store.store_message(Origin::Signed(4), vec![4, 3, 2]), Ok(()));
    assert_eq!(store.send_message(Origin::Signed(4), 4), Ok(()));
    assert_eq!(store.messages(4), vec![4, 3, 2]);
}

#[test]
fn send_after_empty_store_is_refused() {
    let mut store = Pallet::new();
    assert_eq!(store.store_message(Origin::Signed(1), vec![6]), Ok(()));
    assert_eq!(store.store_message(Origin::Signed(2), Vec::new()), Ok(()));
    assert_eq!(store.send_message(Origin::Signed(2), 1), Err(Error::NoMessageFound));
    assert_eq!(store.messages(1), vec![6]);
    assert_eq!(store.messages(2), Vec::<u8>::new());
    assert_eq!(store.events().len(), 2);
}

#[test]
fn second_send_finds_nothing() {
    let mut store = Pallet::new();
    assert_eq!(store.store_message(Origin::Signed(1), vec![1]), Ok(()));
    assert_eq!(store.send_message(Origin::Signed(1), 2), Ok(()));
    assert_eq!(store.send_message(Origin::Signed(1), 2), Err(Error::NoMessageFound));
    assert_eq!(store.messages(2), vec![1]);
}

#[test]
fn unsigned_requests_are_refused() {
    let mut store = Pallet::new();
    assert_eq!(store.store_message(Origin::Unsigned, vec![1]), Err(Error::AuthenticationRequired));
    assert_eq!(store.store_message(Origin::Root, vec![1]), Err(Error::AuthenticationRequired));
    assert_eq!(store.send_message(Origin::Root, 1), Err(Error::AuthenticationRequired));
    assert_eq!(store.send_message(Origin::Unsigned, 1), Err(Error::AuthenticationRequired));
    assert!(store.events().is_empty());
}

#[test]
fn ensure_signed_gives_the_signer() {
    assert_eq!(ensure_signed(Origin::Signed(42)), Ok(42));
    assert_eq!(ensure_signed(Origin::Root), Err(Error::AuthenticationRequired));
    assert_eq!(ensure_signed(Origin::Unsigned), Err(Error::AuthenticationRequired));
}

#[test]
fn events_record_successful_requests_in_order() {
    let mut store = Pallet::new();
    assert_eq!(store.store_message(Origin::Signed(1), vec![1, 2]), Ok(()));
    assert_eq!(store.send_message(Origin::Signed(1), 5), Ok(()));
    assert_eq!(store.send_message(Origin::Signed(1), 5), Err(Error::NoMessageFound));
    assert_eq!(
        store.events(),
        &vec![Event::MessageStored(1, vec![1, 2]), Event::MessageSent(1, vec![1, 2])]
    );
}
