//! The file of the store: a JSON array of objects, one for each entry, with
//! the four fields as text under their names.
//!
//! Reading and writing JSON is `serde_json`'s work. What the library adds is
//! the shape: which objects stand for entries, and which object an entry is
//! written as.

use crate::entry::{AccountEntry, EntryView, ACCOUNT, EMAIL, PASSWORD, USERNAME};
use crate::text::owned;
use vstd::prelude::*;

verus! {

/// `serde_json::Error`: why a text could not be read or written.
#[verifier::external_type_specification]
#[verifier::external_body]
pub struct ExJsonError(serde_json::Error);

/// The objects that `serde_json` reads from a text, where the text is a JSON
/// array of objects. Each object is given by its members in the order of
/// their first appearance; of a key that appears more than once the last
/// value counts. A value that is a string is kept, any other is left out.
pub uninterp spec fn json_objects(text: Seq<char>) -> Option<
    Seq<Seq<(Seq<char>, Option<Seq<char>>)>>,
>;

/// The text that `serde_json` writes for an array of objects, where it
/// writes one. A member without a value is written as `null`.
pub uninterp spec fn json_text(objects: Seq<Seq<(Seq<char>, Option<Seq<char>>)>>) -> Option<
    Seq<char>,
>;

/// `serde_json::from_str` for a list of `serde_json::Map`s, and
/// `Value::as_str` on each value. It fails where the text is not a JSON array
/// of objects; what it gives is determined by the text.
#[verifier::external_body]
fn read_objects(text: &str) -> (outcome: Result<
    Vec<Vec<(String, Option<String>)>>,
    serde_json::Error,
>)
    ensures
        match outcome {
            Ok(objects) => json_objects(text@) == Some(objects.deep_view()),
            Err(_) => json_objects(text@) is None,
        },
{
    let list: Vec<serde_json::Map<String, serde_json::Value>> = serde_json::from_str(text)?;
    Ok(
        list.into_iter().map(
            |object| object.into_iter().map(|(k, v)| (k, v.as_str().map(str::to_owned))).collect(),
        ).collect(),
    )
}

/// `serde_json::to_string` on a list of `serde_json::Map`s that hold the
/// members as `Value`s. What it writes is determined by the members.
#[verifier::external_body]
fn write_objects(objects: &Vec<Vec<(String, Option<String>)>>) -> (outcome: Result<
    String,
    serde_json::Error,
>)
    ensures
        match outcome {
            Ok(text) => json_text(objects.deep_view()) == Some(text@),
            Err(_) => json_text(objects.deep_view()) is None,
        },
{
    let list: Vec<serde_json::Map<String, serde_json::Value>> = objects.iter().map(
        |object|
            object.iter().map(|(k, v)| (k.clone(), serde_json::Value::from(v.clone()))).collect(),
    ).collect();
    serde_json::to_string(&list)
}

/// One of the four fields of an entry.
#[derive(Clone, Copy, Debug, PartialEq, Eq, Structural)]
pub enum Field {
    Account,
    Username,
    Email,
    Password,
}

impl Field {
    /// The key under which the field stands in an object.
    pub open spec fn name(self) -> Seq<char> {
        match self {
            Field::Account => ACCOUNT@,
            Field::Username => USERNAME@,
            Field::Email => EMAIL@,
            Field::Password => PASSWORD@,
        }
    }

    /// The key under which the field stands in an object.
    pub fn key(self) -> (key: &'static str)
        ensures
            key@ == self.name(),
    {
        match self {
            Field::Account => ACCOUNT,
            Field::Username => USERNAME,
            Field::Email => EMAIL,
            Field::Password => PASSWORD,
        }
    }
}

/// Why the file of the store could not be read or written.
#[derive(Clone, Copy, Debug, PartialEq, Eq, Structural)]
pub enum StoreError {
    /// The text is not a JSON array of objects.
    Malformed,
    /// The object at `record` has no member under the field's name.
    Missing { record: usize, field: Field },
    /// The object at `record` has a member under the field's name whose value
    /// is not text.
    NotText { record: usize, field: Field },
    /// The entries could not be written as JSON.
    Unwritable,
}

/// The value under a key in an object: nothing where no member has the key,
/// else the value of the first member that has it, which is a text or not.
pub open spec fn member(object: Seq<(Seq<char>, Option<Seq<char>>)>, key: Seq<char>) -> Option<
    Option<Seq<char>>,
>
    decreases object.len(),
{
    if object.len() == 0 {
        None
    } else if object.first().0 == key {
        Some(object.first().1)
    } else {
        member(object.drop_first(), key)
    }
}

/// The text of a field in the object at `record`, or what is wrong with it.
pub open spec fn field_of(
    object: Seq<(Seq<char>, Option<Seq<char>>)>,
    record: usize,
    field: Field,
) -> Result<Seq<char>, StoreError> {
    match member(object, field.name()) {
        None => Err(StoreError::Missing { record, field }),
        Some(None) => Err(StoreError::NotText { record, field }),
        Some(Some(text)) => Ok(text),
    }
}

/// The entry that the object at `record` stands for. All four fields must be
/// there as text; other members are passed over. Of several faults the one
/// in the earliest field is reported.
pub open spec fn entry_of(object: Seq<(Seq<char>, Option<Seq<char>>)>, record: usize) -> Result<
    EntryView,
    StoreError,
> {
    match field_of(object, record, Field::Account) {
        Err(fault) => Err(fault),
        Ok(account) => match field_of(object, record, Field::Username) {
            Err(fault) => Err(fault),
            Ok(username) => match field_of(object, record, Field::Email) {
                Err(fault) => Err(fault),
                Ok(email) => match field_of(object, record, Field::Password) {
                    Err(fault) => Err(fault),
                    Ok(password) => Ok(EntryView { account, username, email, password }),
                },
            },
        },
    }
}

/// The entries that a sequence of objects stands for, in order, or the fault
/// of the earliest object that stands for none.
pub open spec fn entries_of(objects: Seq<Seq<(Seq<char>, Option<Seq<char>>)>>) -> Result<
    Seq<EntryView>,
    StoreError,
>
    decreases objects.len(),
{
    if objects.len() == 0 {
        Ok(Seq::empty())
    } else {
        match entries_of(objects.drop_last()) {
            Err(fault) => Err(fault),
            Ok(entries) => match entry_of(objects.last(), (objects.len() - 1) as usize) {
                Err(fault) => Err(fault),
                Ok(entry) => Ok(entries.push(entry)),
            },
        }
    }
}

/// The object that an entry is written as: its four fields as text, in the
/// order account, user name, e-mail address, password.
pub open spec fn object_of(entry: EntryView) -> Seq<(Seq<char>, Option<Seq<char>>)> {
    seq![
        (ACCOUNT@, Some(entry.account)),
        (USERNAME@, Some(entry.username)),
        (EMAIL@, Some(entry.email)),
        (PASSWORD@, Some(entry.password)),
    ]
}

/// The objects that a store is written as, one for each entry, in order.
pub open spec fn objects_of(entries: Seq<EntryView>) -> Seq<Seq<(Seq<char>, Option<Seq<char>>)>> {
    Seq::new(entries.len(), |i: int| object_of(entries[i]))
}

/// Whether what came of reading is what the objects stand for.
pub open spec fn agrees(
    outcome: Result<Vec<AccountEntry>, StoreError>,
    expected: Result<Seq<EntryView>, StoreError>,
) -> bool {
    match outcome {
        Ok(accounts) => expected == Ok::<Seq<EntryView>, StoreError>(accounts.deep_view()),
        Err(fault) => expected == Err::<Seq<EntryView>, StoreError>(fault),
    }
}

/// The four field names differ from one another.
pub proof fn lemma_field_names_differ(one: Field, other: Field)
    ensures
        one.name() == other.name() <==> one == other,
{
    reveal_strlit("account");
    reveal_strlit("username");
    reveal_strlit("email");
    reveal_strlit("password");
    assert(ACCOUNT@.len() == 7 && USERNAME@.len() == 8 && EMAIL@.len() == 5 && PASSWORD@.len()
        == 8);
    assert(USERNAME@[0] == 'u' && PASSWORD@[0] == 'p');
}

/// The object that an entry is written as stands for that entry.
pub proof fn lemma_object_round_trip(entry: EntryView, record: usize)
    ensures
        entry_of(object_of(entry), record) == Ok::<EntryView, StoreError>(entry),
{
    let object = object_of(entry);
    lemma_field_names_differ(Field::Username, Field::Account);
    lemma_field_names_differ(Field::Email, Field::Account);
    lemma_field_names_differ(Field::Email, Field::Username);
    lemma_field_names_differ(Field::Password, Field::Account);
    lemma_field_names_differ(Field::Password, Field::Username);
    lemma_field_names_differ(Field::Password, Field::Email);
    let one = object.drop_first();
    let two = one.drop_first();
    let three = two.drop_first();
    assert(one.first() == object[1] && two.first() == object[2] && three.first() == object[3]);
    assert(member(object, ACCOUNT@) == Some(Some(entry.account)));
    assert(member(one, USERNAME@) == Some(Some(entry.username)));
    assert(member(object, USERNAME@) == Some(Some(entry.username)));
    assert(member(two, EMAIL@) == Some(Some(entry.email)));
    assert(member(one, EMAIL@) == Some(Some(entry.email)));
    assert(member(object, EMAIL@) == Some(Some(entry.email)));
    assert(member(three, PASSWORD@) == Some(Some(entry.password)));
    assert(member(two, PASSWORD@) == Some(Some(entry.password)));
    assert(member(one, PASSWORD@) == Some(Some(entry.password)));
    assert(member(object, PASSWORD@) == Some(Some(entry.password)));
}

/// Writing a store as objects and reading the objects back gives the store:
/// the same entries in the same order, whatever their number.
pub proof fn lemma_objects_round_trip(entries: Seq<EntryView>)
    ensures
        entries_of(objects_of(entries)) == Ok::<Seq<EntryView>, StoreError>(entries),
    decreases entries.len(),
{
    let objects = objects_of(entries);
    if entries.len() == 0 {
        assert(entries =~= Seq::empty());
    } else {
        let shorter = entries.drop_last();
        lemma_objects_round_trip(shorter);
        assert(objects.drop_last() =~= objects_of(shorter));
        lemma_object_round_trip(entries.last(), (objects.len() - 1) as usize);
        assert(shorter.push(entries.last()) =~= entries);
    }
}

/// The text of a field in the object at `record`.
fn field_text(object: &Vec<(String, Option<String>)>, record: usize, field: Field) -> (outcome:
    Result<String, StoreError>)
    ensures
        match outcome {
            Ok(text) => field_of(object.deep_view(), record, field) == Ok::<
                Seq<char>,
                StoreError,
            >(text@),
            Err(fault) => field_of(object.deep_view(), record, field) == Err::<
                Seq<char>,
                StoreError,
            >(fault),
        },
{
    let key = owned(field.key());
    let ghost members = object.deep_view();
    let mut i: usize = 0;
    assert(members.skip(0) =~= members);
    while i < object.len()
        invariant
            i <= object.len(),
            members == object.deep_view(),
            key@ == field.name(),
            member(members, key@) == member(members.skip(i as int), key@),
        decreases object.len() - i,
    {
        proof {
            let rest = members.skip(i as int);
            assert(rest.first() == members[i as int]);
            assert(rest.drop_first() =~= members.skip(i + 1));
        }
        if object[i].0 == key {
            return match &object[i].1 {
                Some(text) => Ok(text.clone()),
                None => Err(StoreError::NotText { record, field }),
            };
        }
        i += 1;
    }
    Err(StoreError::Missing { record, field })
}

/// The entry that the object at `record` stands for.
fn entry_from_object(object: &Vec<(String, Option<String>)>, record: usize) -> (outcome: Result<
    AccountEntry,
    StoreError,
>)
    ensures
        match outcome {
            Ok(entry) => entry_of(object.deep_view(), record) == Ok::<EntryView, StoreError>(
                entry@,
            ),
            Err(fault) => entry_of(object.deep_view(), record) == Err::<EntryView, StoreError>(
                fault,
            ),
        },
{
    let account = match field_text(object, record, Field::Account) {
        Ok(text) => text,
        Err(fault) => { return Err(fault); },
    };
    let username = match field_text(object, record, Field::Username) {
        Ok(text) => text,
        Err(fault) => { return Err(fault); },
    };
    let email = match field_text(object, record, Field::Email) {
        Ok(text) => text,
        Err(fault) => { return Err(fault); },
    };
    let password = match field_text(object, record, Field::Password) {
        Ok(text) => text,
        Err(fault) => { return Err(fault); },
    };
    Ok(AccountEntry::new(account, username, email, password))
}

/// The entries that the objects stand for, in order. Every object must hold
/// the four fields as text; the fault of the earliest one that does not is
/// reported, and of its faults the one in the earliest field.
pub fn entries_from_objects(objects: &Vec<Vec<(String, Option<String>)>>) -> (outcome: Result<
    Vec<AccountEntry>,
    StoreError,
>)
    ensures
        agrees(outcome, entries_of(objects.deep_view())),
{
    let ghost all = objects.deep_view();
    let mut accounts: Vec<AccountEntry> = Vec::new();
    let mut i: usize = 0;
    assert(all.take(0) =~= Seq::empty());
    assert(accounts.deep_view() =~= Seq::empty());
    while i < objects.len()
        invariant
            i <= objects.len(),
            all == objects.deep_view(),
            entries_of(all.take(i as int)) == Ok::<Seq<EntryView>, StoreError>(
                accounts.deep_view(),
            ),
        decreases objects.len() - i,
    {
        let ghost before = accounts.deep_view();
        proof {
            let longer = all.take(i + 1);
            assert(longer.drop_last() =~= all.take(i as int));
            assert(longer.last() == objects@[i as int].deep_view());
        }
        match entry_from_object(&objects[i], i) {
            Ok(entry) => {
                accounts.push(entry);
                assert(accounts.deep_view() =~= before.push(entry@));
            },
            Err(fault) => {
                proof {
                    lemma_fault_stays(all, i + 1);
                }
                return Err(fault);
            },
        }
        i += 1;
    }
    assert(all.take(i as int) =~= all);
    Ok(accounts)
}

/// A fault among the first objects is the fault of the whole.
pub proof fn lemma_fault_stays(objects: Seq<Seq<(Seq<char>, Option<Seq<char>>)>>, count: int)
    requires
        0 <= count <= objects.len(),
        entries_of(objects.take(count)) is Err,
    ensures
        entries_of(objects) == entries_of(objects.take(count)),
    decreases objects.len() - count,
{
    if count < objects.len() {
        let longer = objects.take(count + 1);
        assert(longer.drop_last() =~= objects.take(count));
        lemma_fault_stays(objects, count + 1);
    } else {
        assert(objects.take(count) =~= objects);
    }
}

/// The objects that the entries are written as.
pub fn objects_from_entries(accounts: &Vec<AccountEntry>) -> (objects: Vec<
    Vec<(String, Option<String>)>,
>)
    ensures
        objects.deep_view() == objects_of(accounts.deep_view()),
{
    let mut objects: Vec<Vec<(String, Option<String>)>> = Vec::new();
    let mut i: usize = 0;
    while i < accounts.len()
        invariant
            i <= accounts.len(),
            objects.len() == i,
            forall|j: int| 0 <= j < i ==> (#[trigger] objects@[j]).deep_view() == object_of(
                accounts@[j]@,
            ),
        decreases accounts.len() - i,
    {
        let entry = &accounts[i];
        let mut object: Vec<(String, Option<String>)> = Vec::new();
        object.push((owned(ACCOUNT), Some(entry.account.clone())));
        object.push((owned(USERNAME), Some(entry.username.clone())));
        object.push((owned(EMAIL), Some(entry.email.clone())));
        object.push((owned(PASSWORD), Some(entry.password.clone())));
        assert(object.deep_view() =~= object_of(entry@));
        objects.push(object);
        i += 1;
    }
    assert(objects.deep_view() =~= objects_of(accounts.deep_view()));
    objects
}

/// The entries that the text of the file holds. The text must be a JSON array
/// of objects, and every object must hold the four fields as text.
pub fn decode_accounts(text: &str) -> (outcome: Result<Vec<AccountEntry>, StoreError>)
    ensures
        match json_objects(text@) {
            Some(objects) => agrees(outcome, entries_of(objects)),
            None => outcome == Err::<Vec<AccountEntry>, StoreError>(StoreError::Malformed),
        },
{
    match read_objects(text) {
        Ok(objects) => entries_from_objects(&objects),
        Err(_) => Err(StoreError::Malformed),
    }
}

/// The text of the file that holds the entries: the JSON that `serde_json`
/// writes for their objects.
pub fn encode_accounts(accounts: &Vec<AccountEntry>) -> (outcome: Result<String, StoreError>)
    ensures
        match outcome {
            Ok(text) => json_text(objects_of(accounts.deep_view())) == Some(text@),
            Err(fault) => fault == StoreError::Unwritable && json_text(
                objects_of(accounts.deep_view()),
            ) is None,
        },
{
    let objects = objects_from_entries(accounts);
    match write_objects(&objects) {
        Ok(text) => Ok(text),
        Err(_) => Err(StoreError::Unwritable),
    }
}

} // verus!
