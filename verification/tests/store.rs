use passman::entry::{AccountEntry, ACCOUNT, EMAIL, PASSWORD, USERNAME};
use passman::store::{copy_accounts, find_account, with_entry, without_entry};

fn entry(account: &str, username: &str, email: &str, password: &str) -> AccountEntry {
    AccountEntry::new(
        account.to_string(),
        username.to_string(),
        email.to_string(),
        password.to_string(),
    )
}

#[test]
fn field_names() {
    assert_eq!(ACCOUNT, "account");
    assert_eq!(USERNAME, "username");
    assert_eq!(EMAIL, "email");
    assert_eq!(PASSWORD, "password");
}

#[test]
fn new_entry_holds_its_fields() {
    let e = entry("github", "alice", "a@x.com", "p");
    assert_eq!(e.account, "github");
    assert_eq!(e.username, "alice");
    assert_eq!(e.email, "a@x.com");
    assert_eq!(e.password, "p");
    assert_eq!(e.clone(), e);
}

#[test]
fn add_then_get() {
    let store = with_entry(&Vec::new(), entry("github", "alice", "a@x.com", "p"));
    assert_eq!(store.len(), 1);
    for name in ["github", "GitHub", "GITHUB", "gItHuB"] {
        let found = find_account(&store, name);
        assert_eq!(found, Some(0));
        assert_eq!(store[found.unwrap()], entry("github", "alice", "a@x.com", "p"));
    }
    assert_eq!(find_account(&store, "gitlab"), None);
    assert_eq!(find_account(&store, "github "), None);
}

#[test]
fn delete_removes_exactly_one() {
    let store = vec![entry("github", "alice", "a@x.com", "p"), entry("mail", "bob", "b@x.com", "q")];
    let at = find_account(&store, "GitHub").unwrap();
    assert_eq!(without_entry(&store, at), vec![entry("mail", "bob", "b@x.com", "q")]);
    let at = find_account(&store, "mail").unwrap();
    assert_eq!(without_entry(&store, at), vec![entry("github", "alice", "a@x.com", "p")]);
}

#[test]
fn delete_of_an_absent_name_finds_nothing() {
    let store = vec![entry("github", "alice", "a@x.com", "p"), entry("mail", "bob", "b@x.com", "q")];
    assert_eq!(find_account(&store, "bank"), None);
    assert_eq!(find_account(&Vec::new(), "github"), None);
}

#[test]
fn case_insensitive_first_match() {
    let store = vec![entry("Foo", "first", "1@x.com", "a"), entry("foo", "second", "2@x.com", "b")];
    assert_eq!(find_account(&store, "FOO"), Some(0));
    assert_eq!(find_account(&store, "foo"), Some(0));
    assert_eq!(find_account(&store, "Foo"), Some(0));
    let rest = without_entry(&store, 0);
    assert_eq!(rest, vec![entry("foo", "second", "2@x.com", "b")]);
    assert_eq!(find_account(&rest, "FOO"), Some(0));
}

#[test]
fn names_beyond_ascii_match_without_regard_to_case() {
    let store = vec![entry("Ärzte", "u", "e", "p"), entry("ΑΘΗΝΑ", "u", "e", "p")];
    assert_eq!(find_account(&store, "ärzte"), Some(0));
    assert_eq!(find_account(&store, "αθηνα"), Some(1));
}

#[test]
fn a_later_match_is_found_behind_entries_that_do_not_match() {
    let store = vec![
        entry("a", "1", "1", "1"),
        entry("b", "2", "2", "2"),
        entry("C", "3", "3", "3"),
        entry("c", "4", "4", "4"),
    ];
    assert_eq!(find_account(&store, "c"), Some(2));
    assert_eq!(find_account(&store, "B"), Some(1));
}

#[test]
fn entries_keep_their_order() {
    let a = entry("a", "1", "1", "1");
    let b = entry("b", "2", "2", "2");
    let c = entry("c", "3", "3", "3");
    let store = with_entry(&with_entry(&with_entry(&Vec::new(), a.clone()), b.clone()), c.clone());
    assert_eq!(store, vec![a.clone(), b.clone(), c.clone()]);
    assert_eq!(copy_accounts(&store), store);
    assert_eq!(without_entry(&store, 1), vec![a.clone(), c.clone()]);
    assert_eq!(without_entry(&store, 2), vec![a, b]);
}
