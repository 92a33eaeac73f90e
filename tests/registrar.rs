use zero::domain::NewSubscriber;
use zero::registrar::{SubscriberRecord, SubscriberStore};
use zero::routes::{subscribe_to, FormData, SubscribeOutcome};

fn subscriber(name: &str, email: &str) -> NewSubscriber {
    NewSubscriber::try_from(FormData { email: email.to_string(), name: name.to_string() }).unwrap()
}

#[test]
fn registering_twice_leaves_one_record() {
    let mut store = SubscriberStore::new();
    let sub = subscriber("le guin", "ursula_le_guin@gmail.com");
    assert!(store.register(&sub, 1).is_ok());
    assert!(store.register(&sub, 2).is_ok());
    let email = "ursula_le_guin@gmail.com".to_string();
    assert_eq!(store.count_email(&email), 1);
    assert_eq!(store.find(&email).unwrap().created, 1);
}

#[test]
fn a_repeat_registration_keeps_the_first_name() {
    let mut store = SubscriberStore::new();
    store.register(&subscriber("le guin", "u@gmail.com"), 10).unwrap();
    store.register(&subscriber("someone else", "u@gmail.com"), 20).unwrap();
    let rec = store.find(&"u@gmail.com".to_string()).unwrap();
    assert_eq!(rec.name, "le guin");
    assert_eq!(rec.created, 10);
}

#[test]
fn many_registrations_of_one_address_leave_one_record() {
    let mut store = SubscriberStore::new();
    store.register(&subscriber("other", "other@example.com"), 0).unwrap();
    for k in 0..20i64 {
        store.register(&subscriber("le guin", "ursula_le_guin@gmail.com"), k).unwrap();
    }
    assert_eq!(store.count_email(&"ursula_le_guin@gmail.com".to_string()), 1);
    assert_eq!(store.count_email(&"other@example.com".to_string()), 1);
    assert_eq!(store.count_email(&"nobody@example.com".to_string()), 0);
}

#[test]
fn valid_form_is_registered_with_200() {
    let mut store = SubscriberStore::new();
    let form = FormData {
        email: "ursula_le_guin@gmail.com".to_string(),
        name: "le guin".to_string(),
    };
    let outcome = subscribe_to(&mut store, form, 5);
    assert_eq!(outcome.status_code(), 200);
    let rec = store.find(&"ursula_le_guin@gmail.com".to_string()).unwrap();
    assert_eq!(rec.email, "ursula_le_guin@gmail.com");
    assert_eq!(rec.name, "le guin");
}

#[test]
fn invalid_forms_get_400_and_write_nothing() {
    let cases = [
        ("le guin", ""),
        ("", "ursula_le_guin@gmail.com"),
        ("", ""),
        ("le guin", "namedomain.com"),
    ];
    for (name, email) in cases {
        let mut store = SubscriberStore::new();
        let form = FormData { email: email.to_string(), name: name.to_string() };
        let outcome = subscribe_to(&mut store, form, 5);
        assert!(matches!(outcome, SubscribeOutcome::Invalid));
        assert_eq!(outcome.status_code(), 400);
        assert!(store.find(&email.to_string()).is_none());
    }
}

#[test]
fn name_is_checked_before_email() {
    let form = FormData { email: "bad".to_string(), name: "".to_string() };
    let err = NewSubscriber::try_from(form).err().unwrap();
    assert_eq!(err, " is not a valid subscriber name.");
    let form = FormData { email: "bad".to_string(), name: "ok".to_string() };
    let err = NewSubscriber::try_from(form).err().unwrap();
    assert_eq!(err, "bad is not a valid subscriber email.");
}

#[test]
fn storage_failure_maps_to_500() {
    let failed = Err(zero::registrar::StorageError { message: "down".to_string() });
    assert_eq!(zero::routes::outcome_of_write(&failed).status_code(), 500);
    assert_eq!(zero::routes::outcome_of_write(&Ok(())).status_code(), 200);
}

#[test]
fn record_for_subscriber_holds_its_fields() {
    let sub = subscriber("  le guin ", "ursula_le_guin@gmail.com");
    let rec = SubscriberRecord::for_subscriber(&sub, 42);
    assert_eq!(rec.email, "ursula_le_guin@gmail.com");
    assert_eq!(rec.name, "le guin");
    assert_eq!(rec.created, 42);
}
