use passman::codec::{
    decode_accounts, encode_accounts, entries_from_objects, objects_from_entries, Field,
    StoreError,
};
use passman::entry::AccountEntry;

fn entry(account: &str, username: &str, email: &str, password: &str) -> AccountEntry {
    AccountEntry::new(
        account.to_string(),
        username.to_string(),
        email.to_string(),
        password.to_string(),
    )
}

fn member(key: &str, text: Option<&str>) -> (String, Option<String>) {
    (key.to_string(), text.map(str::to_string))
}

#[test]
fn round_trip_of_the_empty_store() {
    let text = encode_accounts(&Vec::new()).unwrap();
    assert_eq!(text, "[]");
    assert_eq!(decode_accounts(&text), Ok(Vec::new()));
}

#[test]
fn round_trip() {
    let store = vec![
        entry("github", "alice", "a@x.com", "p"),
        entry("Mail \"home\"", "bob\\b", "b@x.com", "line\nbreak\ttab"),
        entry("", "", "", ""),
        entry("Ärzte ☂", "ΑΘΗΝΑ", "\u{1}\u{7f}", "{\"account\":\"x\"}"),
        entry("github", "alice", "a@x.com", "p"),
    ];
    let text = encode_accounts(&store).unwrap();
    assert_eq!(decode_accounts(&text), Ok(store.clone()));
    assert_eq!(encode_accounts(&decode_accounts(&text).unwrap()).unwrap(), text);
}

#[test]
fn round_trip_of_generated_passwords() {
    let mut store = Vec::new();
    for i in 0..25 {
        let password = passman::password::generate_random_password();
        store.push(entry(&format!("account{i}"), "user", "u@x.com", &password));
    }
    let text = encode_accounts(&store).unwrap();
    assert_eq!(decode_accounts(&text).unwrap(), store);
}

#[test]
fn the_file_is_an_array_of_objects_with_the_fields_in_order() {
    let store = vec![entry("github", "alice", "a@x.com", "p"), entry("m", "b", "e", "q\"")];
    assert_eq!(
        encode_accounts(&store).unwrap(),
        "[{\"account\":\"github\",\"username\":\"alice\",\"email\":\"a@x.com\",\"password\":\"p\"},\
         {\"account\":\"m\",\"username\":\"b\",\"email\":\"e\",\"password\":\"q\\\"\"}]"
    );
}

#[test]
fn objects_of_entries() {
    let store = vec![entry("github", "alice", "a@x.com", "p")];
    let objects = objects_from_entries(&store);
    assert_eq!(
        objects,
        vec![vec![
            member("account", Some("github")),
            member("username", Some("alice")),
            member("email", Some("a@x.com")),
            member("password", Some("p")),
        ]]
    );
    assert_eq!(entries_from_objects(&objects), Ok(store));
    assert_eq!(objects_from_entries(&Vec::new()), Vec::<Vec<(String, Option<String>)>>::new());
}

#[test]
fn decode_reads_fields_in_any_order_and_passes_over_others() {
    let text = " [ {\"password\": \"p\", \"id\": 7, \"email\": \"a@x.com\", \"tags\": [\"x\"],
        \"username\": \"alice\", \"account\": \"github\", \"note\": null} ] ";
    assert_eq!(decode_accounts(text), Ok(vec![entry("github", "alice", "a@x.com", "p")]));
}

#[test]
fn decode_unescapes_text() {
    let text = "[{\"account\":\"a\\u0041\\n\",\"username\":\"\\\"\",\"email\":\"\\\\\",\"password\":\"\\u00e9\"}]";
    assert_eq!(decode_accounts(text), Ok(vec![entry("aA\n", "\"", "\\", "é")]));
}

#[test]
fn decode_rejects_what_is_no_array_of_objects() {
    for text in [
        "",
        "not json",
        "{}",
        "null",
        "[",
        "[1]",
        "[\"github\"]",
        "[[\"github\",\"alice\",\"a@x.com\",\"p\"]]",
        "[{\"account\":\"a\"}] trailing",
        "[{\"account\":\"a\",}]",
        "{\"account\":\"a\",\"username\":\"u\",\"email\":\"e\",\"password\":\"p\"}",
    ] {
        assert_eq!(decode_accounts(text), Err(StoreError::Malformed), "{text}");
    }
}

#[test]
fn decode_reports_a_missing_field() {
    assert_eq!(
        decode_accounts("[{}]"),
        Err(StoreError::Missing { record: 0, field: Field::Account })
    );
    assert_eq!(
        decode_accounts("[{\"account\":\"a\",\"email\":\"e\",\"password\":\"p\"}]"),
        Err(StoreError::Missing { record: 0, field: Field::Username })
    );
    assert_eq!(
        decode_accounts(
            "[{\"account\":\"a\",\"username\":\"u\",\"email\":\"e\",\"password\":\"p\"},\
              {\"account\":\"a\",\"username\":\"u\",\"password\":\"p\"}]"
        ),
        Err(StoreError::Missing { record: 1, field: Field::Email })
    );
    assert_eq!(
        decode_accounts("[{\"account\":\"a\",\"username\":\"u\",\"email\":\"e\",\"Password\":\"p\"}]"),
        Err(StoreError::Missing { record: 0, field: Field::Password })
    );
}

#[test]
fn decode_reports_a_field_that_is_no_text() {
    assert_eq!(
        decode_accounts("[{\"account\":1,\"username\":\"u\",\"email\":\"e\",\"password\":\"p\"}]"),
        Err(StoreError::NotText { record: 0, field: Field::Account })
    );
    assert_eq!(
        decode_accounts(
            "[{\"account\":\"a\",\"username\":\"u\",\"email\":\"e\",\"password\":\"p\"},\
              {\"account\":\"a\",\"username\":\"u\",\"email\":\"e\",\"password\":null}]"
        ),
        Err(StoreError::NotText { record: 1, field: Field::Password })
    );
}

#[test]
fn the_earliest_fault_is_reported() {
    assert_eq!(
        decode_accounts("[{\"password\":7,\"username\":false}, {}]"),
        Err(StoreError::Missing { record: 0, field: Field::Account })
    );
    assert_eq!(
        decode_accounts("[{\"account\":\"a\",\"password\":7,\"username\":false}, {}]"),
        Err(StoreError::NotText { record: 0, field: Field::Username })
    );
}

#[test]
fn entries_from_objects_takes_the_first_member_under_a_key() {
    let objects = vec![vec![
        member("account", Some("first")),
        member("account", Some("second")),
        member("username", Some("u")),
        member("email", Some("e")),
        member("password", Some("p")),
        member("password", None),
    ]];
    assert_eq!(entries_from_objects(&objects), Ok(vec![entry("first", "u", "e", "p")]));
    let faulty = vec![vec![
        member("account", None),
        member("account", Some("second")),
    ]];
    assert_eq!(
        entries_from_objects(&faulty),
        Err(StoreError::NotText { record: 0, field: Field::Account })
    );
}

#[test]
fn field_keys() {
    assert_eq!(Field::Account.key(), "account");
    assert_eq!(Field::Username.key(), "username");
    assert_eq!(Field::Email.key(), "email");
    assert_eq!(Field::Password.key(), "password");
}
