use ownership_gate::{Env, Identity, Store};

#[test]
fn new_store_has_no_entry() {
    let store = Store::new();
    assert_eq!(store.get(&vec![]), None);
    assert_eq!(store.get(&vec![1, 2, 3]), None);
}

#[test]
fn set_records_and_replaces() {
    let mut store = Store::new();
    store.set(vec![1], Identity::Account(vec![10]));
    store.set(vec![2], Identity::Contract(vec![20]));
    assert_eq!(store.get(&vec![1]), Some(&Identity::Account(vec![10])));
    assert_eq!(store.get(&vec![2]), Some(&Identity::Contract(vec![20])));

    store.set(vec![1], Identity::Contract(vec![11]));
    assert_eq!(store.get(&vec![1]), Some(&Identity::Contract(vec![11])));
    assert_eq!(store.get(&vec![2]), Some(&Identity::Contract(vec![20])));
    assert_eq!(store.get(&vec![1, 2]), None);
}

#[test]
fn raw_write_in_an_environment() {
    let mut e = Env::new(Identity::Contract(vec![0xc0]), Identity::Account(vec![1]));
    e.set_owner(vec![5], Identity::Account(vec![6]));
    assert_eq!(e.data().get(&vec![5]), Some(&Identity::Account(vec![6])));
    assert_eq!(e.current_contract(), &Identity::Contract(vec![0xc0]));
    assert_eq!(e.invoker(), &Identity::Account(vec![1]));
}
