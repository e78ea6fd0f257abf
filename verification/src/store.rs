//! The store: a sequence of entries in the order in which they were added,
//! looked up by account name without regard to case.

use crate::entry::{AccountEntry, EntryView};
use crate::text::lowercase;
use vstd::prelude::*;

verus! {

/// Whether a name refers to an account: the two are equal once both are in
/// lowercase.
pub open spec fn same_account(account: Seq<char>, name: Seq<char>) -> bool {
    lowercase(account) == lowercase(name)
}

/// Whether the entry at `i` is the first that the name refers to.
pub open spec fn is_first_match(entries: Seq<EntryView>, name: Seq<char>, i: int) -> bool {
    &&& 0 <= i < entries.len()
    &&& same_account(entries[i].account, name)
    &&& forall|j: int| 0 <= j < i ==> !same_account((#[trigger] entries[j]).account, name)
}

/// Whether the name refers to no entry at all.
pub open spec fn is_absent(entries: Seq<EntryView>, name: Seq<char>) -> bool {
    forall|j: int| 0 <= j < entries.len() ==> !same_account((#[trigger] entries[j]).account, name)
}

/// The place of the first entry that the name refers to, if there is one.
pub open spec fn first_match(entries: Seq<EntryView>, name: Seq<char>) -> Option<int> {
    if exists|i: int| is_first_match(entries, name, i) {
        Some(choose|i: int| is_first_match(entries, name, i))
    } else {
        None
    }
}

/// The store after the first entry that the name refers to has left it.
pub open spec fn after_delete(entries: Seq<EntryView>, name: Seq<char>) -> Seq<EntryView> {
    match first_match(entries, name) {
        Some(i) => entries.remove(i),
        None => entries,
    }
}

/// At most one place is that of the first match.
pub proof fn lemma_first_match_unique(entries: Seq<EntryView>, name: Seq<char>, i: int, j: int)
    requires
        is_first_match(entries, name, i),
        is_first_match(entries, name, j),
    ensures
        i == j,
{
    if i < j {
        assert(!same_account(entries[i].account, name));
    } else if j < i {
        assert(!same_account(entries[j].account, name));
    }
}

/// The place of the first match is what a lookup gives.
pub proof fn lemma_first_match_found(entries: Seq<EntryView>, name: Seq<char>, i: int)
    requires
        is_first_match(entries, name, i),
    ensures
        first_match(entries, name) == Some(i),
{
    let k = choose|k: int| is_first_match(entries, name, k);
    lemma_first_match_unique(entries, name, i, k);
}

/// A lookup gives nothing exactly when the name refers to no entry.
pub proof fn lemma_first_match_none(entries: Seq<EntryView>, name: Seq<char>)
    ensures
        first_match(entries, name) is None <==> is_absent(entries, name),
{
    if is_absent(entries, name) {
        if exists|i: int| is_first_match(entries, name, i) {
            let i = choose|i: int| is_first_match(entries, name, i);
            assert(!same_account(entries[i].account, name));
        }
    } else {
        let j = choose|j: int|
            0 <= j < entries.len() && same_account((#[trigger] entries[j]).account, name);
        lemma_earliest_match(entries, name, j);
    }
}

/// Where some entry matches, an entry at or before it is the first match.
pub proof fn lemma_earliest_match(entries: Seq<EntryView>, name: Seq<char>, j: int)
    requires
        0 <= j < entries.len(),
        same_account(entries[j].account, name),
    ensures
        first_match(entries, name) is Some,
        first_match(entries, name)->0 <= j,
        is_first_match(entries, name, first_match(entries, name)->0),
    decreases j,
{
    if exists|k: int| 0 <= k < j && same_account((#[trigger] entries[k]).account, name) {
        let k = choose|k: int| 0 <= k < j && same_account((#[trigger] entries[k]).account, name);
        lemma_earliest_match(entries, name, k);
    } else {
        assert(is_first_match(entries, name, j));
        lemma_first_match_found(entries, name, j);
    }
}

/// Adding an entry to the empty store and looking it up by its account name,
/// in whatever case the name is written, finds that entry.
pub proof fn lemma_add_then_get(entry: EntryView, name: Seq<char>)
    requires
        same_account(entry.account, name),
    ensures
        first_match(Seq::<EntryView>::empty().push(entry), name) == Some(0int),
        Seq::<EntryView>::empty().push(entry)[0] == entry,
{
    let entries = Seq::<EntryView>::empty().push(entry);
    assert(is_first_match(entries, name, 0));
    lemma_first_match_found(entries, name, 0);
}

/// Of two entries whose account names differ even without regard to case,
/// deleting one by its name leaves exactly the other.
pub proof fn lemma_delete_one_of_two(first: EntryView, second: EntryView, name: Seq<char>)
    requires
        !same_account(first.account, second.account),
    ensures
        same_account(first.account, name) ==> after_delete(seq![first, second], name) == seq![
            second,
        ],
        same_account(second.account, name) ==> after_delete(seq![first, second], name) == seq![
            first,
        ],
{
    let entries = seq![first, second];
    if same_account(first.account, name) {
        assert(is_first_match(entries, name, 0));
        lemma_first_match_found(entries, name, 0);
        assert(entries.remove(0) =~= seq![second]);
    }
    if same_account(second.account, name) {
        assert(!same_account(entries[0].account, name));
        assert(is_first_match(entries, name, 1));
        lemma_first_match_found(entries, name, 1);
        assert(entries.remove(1) =~= seq![first]);
    }
}

/// Deleting a name that refers to no entry leaves the store as it was.
pub proof fn lemma_delete_absent(entries: Seq<EntryView>, name: Seq<char>)
    requires
        is_absent(entries, name),
    ensures
        first_match(entries, name) is None,
        after_delete(entries, name) == entries,
{
    lemma_first_match_none(entries, name);
}

/// Where several entries match a name, the earliest wins: a lookup never
/// gives a place behind an entry that matches.
pub proof fn lemma_first_match_wins(entries: Seq<EntryView>, name: Seq<char>, early: int, late: int)
    requires
        0 <= early < late < entries.len(),
        same_account(entries[early].account, name),
    ensures
        first_match(entries, name) is Some,
        first_match(entries, name) != Some(late),
        early == 0 ==> first_match(entries, name) == Some(0int),
{
    lemma_earliest_match(entries, name, early);
}

/// The place of the first entry whose account name is the given name without
/// regard to case, or nothing where no entry has that name.
pub fn find_account(accounts: &Vec<AccountEntry>, name: &str) -> (found: Option<usize>)
    ensures
        match found {
            Some(i) => first_match(accounts.deep_view(), name@) == Some(i as int),
            None => first_match(accounts.deep_view(), name@) is None,
        },
{
    let folded = name.to_lowercase();
    let ghost entries = accounts.deep_view();
    let mut i: usize = 0;
    while i < accounts.len()
        invariant
            i <= accounts.len(),
            entries == accounts.deep_view(),
            folded@ == lowercase(name@),
            forall|j: int| 0 <= j < i ==> !same_account((#[trigger] entries[j]).account, name@),
        decreases accounts.len() - i,
    {
        let candidate = accounts[i].account.as_str().to_lowercase();
        if candidate == folded {
            proof {
                assert(is_first_match(entries, name@, i as int));
                lemma_first_match_found(entries, name@, i as int);
            }
            return Some(i);
        }
        i += 1;
    }
    proof {
        lemma_first_match_none(entries, name@);
    }
    None
}

/// A copy of the store.
pub fn copy_accounts(accounts: &Vec<AccountEntry>) -> (copy: Vec<AccountEntry>)
    ensures
        copy.len() == accounts.len(),
        copy.deep_view() == accounts.deep_view(),
{
    let mut copy: Vec<AccountEntry> = Vec::new();
    let mut i: usize = 0;
    while i < accounts.len()
        invariant
            i <= accounts.len(),
            copy.len() == i,
            forall|j: int| 0 <= j < i ==> (#[trigger] copy@[j])@ == accounts@[j]@,
        decreases accounts.len() - i,
    {
        copy.push(accounts[i].clone());
        i += 1;
    }
    assert(copy.deep_view() =~= accounts.deep_view());
    copy
}

/// The store with one more entry at its end.
pub fn with_entry(accounts: &Vec<AccountEntry>, entry: AccountEntry) -> (longer: Vec<AccountEntry>)
    ensures
        longer.deep_view() == accounts.deep_view().push(entry@),
{
    let mut longer = copy_accounts(accounts);
    longer.push(entry);
    assert(longer.deep_view() =~= accounts.deep_view().push(entry@));
    longer
}

/// The store without the entry at `index`; the others keep their order.
pub fn without_entry(accounts: &Vec<AccountEntry>, index: usize) -> (shorter: Vec<AccountEntry>)
    requires
        index < accounts.len(),
    ensures
        shorter.deep_view() == accounts.deep_view().remove(index as int),
{
    let mut shorter = copy_accounts(accounts);
    let _ = shorter.remove(index);
    assert(shorter.deep_view() =~= accounts.deep_view().remove(index as int));
    shorter
}

} // verus!
