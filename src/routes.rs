use vstd::prelude::*;

use crate::domain::new_subscriber::NewSubscriber;
use crate::domain::subscriber_email::{is_valid_email, SubscriberEmail};
use crate::domain::subscriber_name::{is_valid_name, trimmed, SubscriberName};
use crate::registrar::{insert_if_absent, StorageError, StoredSubscriber, SubscriberStore};

verus! {

/// The raw fields of a subscription form.
#[derive(Debug)]
pub struct FormData {
    pub email: String,
    pub name: String,
}

impl NewSubscriber {
    /// Validates the name first, then the address; the first failure is returned.
    pub fn try_from(form: FormData) -> (r: Result<NewSubscriber, String>)
        ensures
            r is Ok <==> is_valid_name(form.name@) && is_valid_email(form.email@),
            r matches Ok(s) ==> s.name@ == trimmed(form.name@) && s.email@ == form.email@,
            r matches Err(e) ==> e@ == (if !is_valid_name(form.name@) {
                form.name@ + " is not a valid subscriber name."@
            } else {
                form.email@ + " is not a valid subscriber email."@
            }),
    {
        let name = match SubscriberName::parse(form.name) {
            Ok(n) => n,
            Err(e) => return Err(e),
        };
        let email = match SubscriberEmail::parse(form.email) {
            Ok(m) => m,
            Err(e) => return Err(e),
        };
        Ok(NewSubscriber { email, name })
    }
}

/// What a subscription request came to.
#[derive(Debug)]
pub enum SubscribeOutcome {
    /// The name or the address was missing or malformed.
    Invalid,
    /// The store failed to record the subscriber.
    StorageFailed,
    /// The subscriber is on record.
    Registered,
}

impl SubscribeOutcome {
    /// The HTTP status that answers the request.
    pub fn status_code(&self) -> (r: u16)
        ensures
            r == (match self {
                SubscribeOutcome::Invalid => 400u16,
                SubscribeOutcome::StorageFailed => 500u16,
                SubscribeOutcome::Registered => 200u16,
            }),
    {
        match self {
            SubscribeOutcome::Invalid => 400,
            SubscribeOutcome::StorageFailed => 500,
            SubscribeOutcome::Registered => 200,
        }
    }
}

/// The outcome of a valid request, given how its write went.
pub fn outcome_of_write(write: &Result<(), StorageError>) -> (r: SubscribeOutcome)
    ensures
        write is Ok ==> r == SubscribeOutcome::Registered,
        write is Err ==> r == SubscribeOutcome::StorageFailed,
{
    match write {
        Ok(()) => SubscribeOutcome::Registered,
        Err(_) => SubscribeOutcome::StorageFailed,
    }
}

/// Validates `form` and, when it is valid, registers the subscriber in `store` with creation
/// time `created`.
pub fn subscribe_to(store: &mut SubscriberStore, form: FormData, created: i64) -> (r:
    SubscribeOutcome)
    requires
        old(store).wf(),
    ensures
        final(store).wf(),
        r == SubscribeOutcome::Invalid <==> !(is_valid_name(form.name@) && is_valid_email(
            form.email@,
        )),
        r == SubscribeOutcome::Invalid ==> final(store)@ == old(store)@,
        r != SubscribeOutcome::Invalid ==> r == SubscribeOutcome::Registered && final(store)@
            == insert_if_absent(
            old(store)@,
            (StoredSubscriber { email: form.email@, name: trimmed(form.name@), created }),
        ),
{
    match NewSubscriber::try_from(form) {
        Err(_) => SubscribeOutcome::Invalid,
        Ok(sub) => {
            let write = store.register(&sub, created);
            outcome_of_write(&write)
        },
    }
}

} // verus!
