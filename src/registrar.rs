use vstd::prelude::*;

use crate::domain::new_subscriber::NewSubscriber;

verus! {

/// What a stored subscriber record holds.
pub struct StoredSubscriber {
    pub email: Seq<char>,
    pub name: Seq<char>,
    pub created: i64,
}

/// A subscriber document as it is written: keyed by `email`, with the creation time in
/// milliseconds since the Unix epoch.
#[derive(Debug)]
pub struct SubscriberRecord {
    pub email: String,
    pub name: String,
    pub created: i64,
}

impl View for SubscriberRecord {
    type V = StoredSubscriber;

    open spec fn view(&self) -> StoredSubscriber {
        StoredSubscriber { email: self.email@, name: self.name@, created: self.created }
    }
}

/// No two records share an address.
pub open spec fn emails_unique(rs: Seq<StoredSubscriber>) -> bool {
    forall|i: int, j: int|
        0 <= i < rs.len() && 0 <= j < rs.len() && i != j ==> #[trigger] rs[i].email
            != #[trigger] rs[j].email
}

/// Some record holds address `e`.
pub open spec fn has_email(rs: Seq<StoredSubscriber>, e: Seq<char>) -> bool {
    exists|i: int| 0 <= i < rs.len() && #[trigger] rs[i].email == e
}

/// The number of records that hold address `e`.
pub open spec fn count_email(rs: Seq<StoredSubscriber>, e: Seq<char>) -> nat
    decreases rs.len(),
{
    if rs.len() == 0 {
        0
    } else {
        count_email(rs.drop_last(), e) + if rs.last().email == e {
            1nat
        } else {
            0nat
        }
    }
}

/// The write that registers `r`: it inserts `r` when no record holds its address, and leaves
/// the store as it was otherwise.
pub open spec fn insert_if_absent(rs: Seq<StoredSubscriber>, r: StoredSubscriber) -> Seq<
    StoredSubscriber,
> {
    if has_email(rs, r.email) {
        rs
    } else {
        rs.push(r)
    }
}

/// The store after the writes of `writes`, in their order.
pub open spec fn insert_all(rs: Seq<StoredSubscriber>, writes: Seq<StoredSubscriber>) -> Seq<
    StoredSubscriber,
>
    decreases writes.len(),
{
    if writes.len() == 0 {
        rs
    } else {
        insert_if_absent(insert_all(rs, writes.drop_last()), writes.last())
    }
}

/// The record written for `sub`, created at `created`.
pub open spec fn record_of(sub: &NewSubscriber, created: i64) -> StoredSubscriber {
    StoredSubscriber { email: sub.email@, name: sub.name@, created }
}

proof fn lemma_count_unique(rs: Seq<StoredSubscriber>, e: Seq<char>)
    requires
        emails_unique(rs),
    ensures
        count_email(rs, e) == if has_email(rs, e) {
            1nat
        } else {
            0nat
        },
    decreases rs.len(),
{
    if rs.len() == 0 {
    } else {
        let init = rs.drop_last();
        assert(emails_unique(init)) by {
            assert forall|i: int, j: int|
                0 <= i < init.len() && 0 <= j < init.len() && i != j implies #[trigger] init[i].email
                != #[trigger] init[j].email by {
                assert(init[i] == rs[i] && init[j] == rs[j]);
            }
        }
        lemma_count_unique(init, e);
        if rs.last().email == e {
            assert(!has_email(init, e)) by {
                if has_email(init, e) {
                    let i = choose|i: int| 0 <= i < init.len() && #[trigger] init[i].email == e;
                    assert(rs[i].email == rs[rs.len() - 1].email);
                }
            }
            assert(rs[rs.len() - 1].email == e);
        } else {
            if has_email(init, e) {
                let i = choose|i: int| 0 <= i < init.len() && #[trigger] init[i].email == e;
                assert(rs[i].email == e);
            }
            if has_email(rs, e) {
                let i = choose|i: int| 0 <= i < rs.len() && #[trigger] rs[i].email == e;
                assert(i != rs.len() - 1);
                assert(init[i].email == e);
            }
        }
    }
}

proof fn lemma_insert_keeps_unique(rs: Seq<StoredSubscriber>, r: StoredSubscriber)
    requires
        emails_unique(rs),
    ensures
        emails_unique(insert_if_absent(rs, r)),
        has_email(insert_if_absent(rs, r), r.email),
{
    let out = insert_if_absent(rs, r);
    if !has_email(rs, r.email) {
        assert forall|i: int, j: int|
            0 <= i < out.len() && 0 <= j < out.len() && i != j implies #[trigger] out[i].email
            != #[trigger] out[j].email by {
            if i < rs.len() && j < rs.len() {
                assert(out[i] == rs[i] && out[j] == rs[j]);
            } else if i < rs.len() {
                assert(out[i] == rs[i]);
            } else {
                assert(out[j] == rs[j]);
            }
        }
        assert(out[rs.len() as int] == r);
    }
}

/// Registering the same subscriber twice leaves the store as registering it once, and exactly
/// one record holds its address.
pub proof fn lemma_register_twice_is_idempotent(rs: Seq<StoredSubscriber>, r: StoredSubscriber)
    requires
        emails_unique(rs),
    ensures
        insert_if_absent(insert_if_absent(rs, r), r) == insert_if_absent(rs, r),
        count_email(insert_if_absent(insert_if_absent(rs, r), r), r.email) == 1,
{
    lemma_insert_keeps_unique(rs, r);
    lemma_count_unique(insert_if_absent(rs, r), r.email);
}

/// However many writes for one address arrive, and in whatever order the store applies them,
/// exactly one record holds that address afterwards and no address is held twice.
pub proof fn lemma_same_address_writes_leave_one_record(
    rs: Seq<StoredSubscriber>,
    writes: Seq<StoredSubscriber>,
    e: Seq<char>,
)
    requires
        emails_unique(rs),
        writes.len() > 0,
        forall|k: int| 0 <= k < writes.len() ==> #[trigger] writes[k].email == e,
    ensures
        emails_unique(insert_all(rs, writes)),
        count_email(insert_all(rs, writes), e) == 1,
{
    lemma_insert_all_keeps_unique(rs, writes);
    let before = insert_all(rs, writes.drop_last());
    lemma_insert_all_keeps_unique(rs, writes.drop_last());
    lemma_insert_keeps_unique(before, writes.last());
    lemma_count_unique(insert_all(rs, writes), e);
}

proof fn lemma_insert_all_keeps_unique(rs: Seq<StoredSubscriber>, writes: Seq<StoredSubscriber>)
    requires
        emails_unique(rs),
    ensures
        emails_unique(insert_all(rs, writes)),
    decreases writes.len(),
{
    if writes.len() > 0 {
        lemma_insert_all_keeps_unique(rs, writes.drop_last());
        lemma_insert_keeps_unique(insert_all(rs, writes.drop_last()), writes.last());
    }
}

impl SubscriberRecord {
    /// The record written for `sub`, created at `created`.
    pub fn for_subscriber(sub: &NewSubscriber, created: i64) -> (r: SubscriberRecord)
        ensures
            r@ == record_of(sub, created),
    {
        SubscriberRecord {
            email: sub.email.as_str().to_string(),
            name: sub.name.as_str().to_string(),
            created,
        }
    }
}

/// A failure of the store, described by its message.
#[derive(Debug)]
pub struct StorageError {
    pub message: String,
}

/// An in-memory store of subscriber records in which no address is held twice. It models the
/// service's database, which is written by an upsert keyed on `email` that sets the fields only
/// on insert and is guarded by a unique index on `email`; the service itself writes to MongoDB.
pub struct SubscriberStore {
    records: Vec<SubscriberRecord>,
}

impl View for SubscriberStore {
    type V = Seq<StoredSubscriber>;

    closed spec fn view(&self) -> Seq<StoredSubscriber> {
        self.records@.map_values(|r: SubscriberRecord| r@)
    }
}

impl SubscriberStore {
    pub open spec fn wf(&self) -> bool {
        emails_unique(self@)
    }

    pub fn new() -> (r: SubscriberStore)
        ensures
            r.wf(),
            r@ == Seq::<StoredSubscriber>::empty(),
    {
        let r = SubscriberStore { records: Vec::new() };
        assert(r@ =~= Seq::<StoredSubscriber>::empty());
        r
    }

    /// The position of the record that holds `email`, if any.
    fn position_of(&self, email: &String) -> (r: Option<usize>)
        ensures
            r is None <==> !has_email(self@, email@),
            r matches Some(i) ==> i < self@.len() && self@[i as int].email == email@,
    {
        let mut i: usize = 0;
        while i < self.records.len()
            invariant
                i <= self.records@.len(),
                self@.len() == self.records@.len(),
                forall|k: int| 0 <= k < i ==> #[trigger] self@[k].email != email@,
            decreases self.records@.len() - i,
        {
            if self.records[i].email == *email {
                assert(self@[i as int].email == email@);
                return Some(i);
            }
            i = i + 1;
        }
        None
    }

    /// Writes the record of `sub` unless a record already holds its address; a repeated
    /// registration neither fails nor changes the stored record.
    pub fn register(&mut self, sub: &NewSubscriber, created: i64) -> (r: Result<(), StorageError>)
        requires
            old(self).wf(),
        ensures
            r is Ok,
            final(self).wf(),
            final(self)@ == insert_if_absent(old(self)@, record_of(sub, created)),
    {
        let record = SubscriberRecord::for_subscriber(sub, created);
        proof {
            lemma_insert_keeps_unique(self@, record@);
        }
        match self.position_of(&record.email) {
            Some(_) => {},
            None => {
                self.records.push(record);
                assert(self@ =~= old(self)@.push(record@));
            },
        }
        Ok(())
    }

    /// The number of records that hold `email`.
    pub fn count_email(&self, email: &String) -> (r: usize)
        requires
            self.wf(),
        ensures
            r == count_email(self@, email@),
    {
        proof {
            lemma_count_unique(self@, email@);
        }
        match self.position_of(email) {
            Some(_) => 1,
            None => 0,
        }
    }

    /// The record that holds `email`, if any.
    pub fn find(&self, email: &String) -> (r: Option<&SubscriberRecord>)
        ensures
            r is None <==> !has_email(self@, email@),
            r matches Some(rec) ==> rec@.email == email@ && exists|i: int|
                0 <= i < self@.len() && #[trigger] self@[i] == rec@,
    {
        match self.position_of(email) {
            Some(i) => Some(&self.records[i]),
            None => None,
        }
    }
}

} // verus!
