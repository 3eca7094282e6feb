use ownership_gate::{Env, ExampleContract, GateError, Identity, Signature};

fn hello() -> Vec<u8> {
    vec![0x68, 0x65, 0x6c, 0x6c, 0x6f]
}

fn contract_id() -> Identity {
    Identity::Contract(vec![0xc0; 32])
}

fn account(tag: u8) -> Identity {
    Identity::Account(vec![tag; 32])
}

#[test]
fn test_change_val() {
    let user = account(1);
    let mut e = Env::new(contract_id(), user.clone());

    ExampleContract::change_val(&mut e, hello(), Identity::Account(vec![1; 32])).unwrap();

    assert_eq!(ExampleContract::get(&e, hello()), Ok(user));
}

#[test]
fn test_use_sig() {
    let user = account(1);
    let mut e = Env::new(contract_id(), user.clone());

    ExampleContract::use_sig(
        &mut e,
        Signature::Invoker,
        hello(),
        Identity::Account(vec![1; 32]),
        false,
    )
    .unwrap();

    assert_eq!(ExampleContract::get(&e, hello()), Ok(user));
}

#[test]
#[should_panic(expected = "you are not allowed to change this value")]
fn test_invalid_invoker() {
    let user1 = account(1);
    let user2 = account(2);
    let mut e = Env::new(contract_id(), user1.clone());

    ExampleContract::change_val(&mut e, hello(), user1.clone()).unwrap();

    assert_eq!(ExampleContract::get(&e, hello()), Ok(user1));

    e.set_invoker(user2.clone());
    if let Err(error) = ExampleContract::change_val(&mut e, hello(), user2) {
        panic!("{}", error.message());
    }
}

#[test]
fn other_invoker_is_refused_and_nothing_changes() {
    let user1 = account(1);
    let user2 = account(2);
    let mut e = Env::new(contract_id(), user1.clone());
    ExampleContract::change_val(&mut e, hello(), user1.clone()).unwrap();

    e.set_invoker(user2.clone());
    assert_eq!(
        ExampleContract::change_val(&mut e, hello(), user2),
        Err(GateError::NotAuthorized)
    );
    assert_eq!(ExampleContract::get(&e, hello()), Ok(user1));
}

#[test]
fn unclaimed_key_is_claimable_by_anyone() {
    let mut e = Env::new(contract_id(), account(7));
    let id = Identity::Contract(vec![3, 4, 5]);
    assert_eq!(ExampleContract::change_val(&mut e, vec![1, 2], id.clone()), Ok(()));
    assert_eq!(ExampleContract::get(&e, vec![1, 2]), Ok(id));
}

#[test]
fn owner_transfers_the_key() {
    let user1 = account(1);
    let user2 = account(2);
    let mut e = Env::new(contract_id(), user1.clone());
    ExampleContract::change_val(&mut e, hello(), user1.clone()).unwrap();
    assert_eq!(ExampleContract::change_val(&mut e, hello(), user2.clone()), Ok(()));
    assert_eq!(ExampleContract::get(&e, hello()), Ok(user2.clone()));

    // The old owner has given the key away.
    assert_eq!(
        ExampleContract::change_val(&mut e, hello(), user1.clone()),
        Err(GateError::NotAuthorized)
    );
    e.set_invoker(user2);
    assert_eq!(ExampleContract::change_val(&mut e, hello(), user1.clone()), Ok(()));
    assert_eq!(ExampleContract::get(&e, hello()), Ok(user1));
}

#[test]
fn read_of_unused_key_fails() {
    let e = Env::new(contract_id(), account(1));
    assert_eq!(ExampleContract::get(&e, vec![0x6b, 0x33]), Err(GateError::KeyNotFound));
}

#[test]
fn read_of_unused_key_fails_beside_a_used_one() {
    let mut e = Env::new(contract_id(), account(1));
    ExampleContract::change_val(&mut e, hello(), account(1)).unwrap();
    assert_eq!(ExampleContract::get(&e, vec![]), Err(GateError::KeyNotFound));
    assert_eq!(
        ExampleContract::get(&e, vec![0x68, 0x65, 0x6c, 0x6c]),
        Err(GateError::KeyNotFound)
    );
}

#[test]
fn same_write_twice_succeeds_twice() {
    let user = account(1);
    let mut e = Env::new(contract_id(), user.clone());
    assert_eq!(ExampleContract::change_val(&mut e, hello(), user.clone()), Ok(()));
    assert_eq!(ExampleContract::change_val(&mut e, hello(), user.clone()), Ok(()));
    assert_eq!(ExampleContract::get(&e, hello()), Ok(user.clone()));
    assert_eq!(e.data().get(&hello()), Some(&user));
    assert_eq!(e.data().get(&vec![0x68]), None);
}

#[test]
fn entry_that_names_the_contract_counts_as_unclaimed() {
    let user1 = account(1);
    let user2 = account(2);
    let mut e = Env::new(contract_id(), user1.clone());
    ExampleContract::change_val(&mut e, hello(), contract_id()).unwrap();
    assert_eq!(ExampleContract::get(&e, hello()), Ok(contract_id()));

    e.set_invoker(user2.clone());
    assert_eq!(ExampleContract::change_val(&mut e, hello(), user2.clone()), Ok(()));
    assert_eq!(ExampleContract::get(&e, hello()), Ok(user2));
}

#[test]
fn keys_do_not_touch_each_other() {
    let user1 = account(1);
    let user2 = account(2);
    let mut e = Env::new(contract_id(), user1.clone());
    ExampleContract::change_val(&mut e, vec![1], user1.clone()).unwrap();
    e.set_invoker(user2.clone());
    ExampleContract::change_val(&mut e, vec![2], user2.clone()).unwrap();
    ExampleContract::change_val(&mut e, vec![2], account(3)).unwrap();
    assert_eq!(ExampleContract::get(&e, vec![1]), Ok(user1));
    assert_eq!(ExampleContract::get(&e, vec![2]), Ok(account(3)));
    assert_eq!(e.current_contract(), &contract_id());
    assert_eq!(e.invoker(), &user2);
}

#[test]
fn error_messages() {
    assert_eq!(
        GateError::NotAuthorized.message(),
        "you are not allowed to change this value"
    );
    assert_eq!(GateError::KeyNotFound.message(), "Key does not exist");
    assert_eq!(
        GateError::InvalidSignature.message(),
        "the signature could not be verified"
    );
}
