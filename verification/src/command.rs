//! The commands. Each is a function from the store and the replies that the
//! user has given so far to what is done next; its caller does it, and comes
//! back with one more reply where a question was asked.

use crate::entry::{AccountEntry, EntryView};
use crate::password::{generate_random_password, is_strong_password};
use crate::prompt::{is_yes, prompt_yes_no};
use crate::store::{
    after_delete, find_account, first_match, is_absent, lemma_first_match_none, with_entry,
    without_entry,
};
use crate::table::{render_entry, render_table, table_of};
use crate::text::{lowercase, owned};
use vstd::prelude::*;

verus! {

/// The name of the command that shows the usage.
pub const HELP: &'static str = "help";

/// The name of the command that adds an entry.
pub const ADD: &'static str = "add";

/// The name of the command that lists the entries.
pub const LIST: &'static str = "list";

/// The name of the command that shows one entry and discloses its password.
pub const GET: &'static str = "get";

/// The name of the command that deletes an entry.
pub const DELETE: &'static str = "delete";

/// The usage.
pub const HELP_TEXT: &'static str =
    "Password Manager CLI\nUsage:\n\tpassman <user_command> [options]\nCommands:\n\tadd <account> <username>    Add a new password (will prompt for password)\n\tlist                        Show all saved accounts\n\tget <account>               Show or copy the password for an account\n\tdelete <account>            Remove an account\n\thelp                        Show this help message";

/// Said where no command was given.
pub const MISSING_COMMAND: &'static str = "Please provide a valid command.";

/// Said before the name of a command that is not known.
pub const UNKNOWN_COMMAND: &'static str = "Unknown command: ";

/// Said behind the name of a command that is not known.
pub const UNKNOWN_ADVICE: &'static str = ". Use 'help' to see available commands.";

/// The first question of `add`.
pub const ASK_ACCOUNT: &'static str = "Enter account:";

/// The second question of `add`.
pub const ASK_USERNAME: &'static str = "Enter username:";

/// The third question of `add`.
pub const ASK_EMAIL: &'static str = "Enter email:";

/// The fourth question of `add`.
pub const ASK_GENERATE: &'static str = "Generate password? [y/n]:";

/// The last question of `add`, asked where no password is generated.
pub const ASK_PASSWORD: &'static str = "Please enter your password:";

/// Said when an entry has been added.
pub const ADDED: &'static str = "Account added successfully!";

/// Said by `list` where the store is empty.
pub const NO_ACCOUNTS: &'static str = "No accounts found in the database.";

/// The first question of `get`.
pub const ASK_NAME: &'static str = "Enter your account's name:";

/// The second question of `get`.
pub const ASK_COPY: &'static str = "Do you want to copy the password to clipboard? [y/n]";

/// Said when a password has been put on the clipboard.
pub const COPIED: &'static str = "Password copied to clipboard!";

/// Said before the account name where a password is shown.
pub const PASSWORD_FOR: &'static str = "Password for account '";

/// Said between the account name and the password.
pub const PASSWORD_IS: &'static str = "': ";

/// Said before a name that refers to no entry.
pub const NOT_FOUND: &'static str = "No account found with name '";

/// Said behind a name that refers to no entry.
pub const QUOTE: &'static str = "'";

/// Said by `delete` where the store is empty.
pub const NOTHING_TO_DELETE: &'static str = "No accounts available to delete.";

/// The question of `delete`.
pub const ASK_DELETE: &'static str = "Which account you want to delete?";

/// Said when an entry has been deleted.
pub const DELETED: &'static str = "Account deleted successfully!";

/// The status with which the process ends where no command was given.
pub const STATUS_MISSING: i32 = 1;

/// The status with which `delete` ends the process on an empty store.
pub const STATUS_NOTHING: i32 = 0;

/// A command, as the first argument of the program names it.
#[derive(Debug, PartialEq, Eq)]
pub enum Command {
    Help,
    Add,
    List,
    Get,
    Delete,
    /// Any other word; it is kept in lowercase.
    Unknown { word: String },
}

/// A command, with the unknown word as a text.
pub ghost enum CommandView {
    Help,
    Add,
    List,
    Get,
    Delete,
    Unknown { word: Seq<char> },
}

impl View for Command {
    type V = CommandView;

    open spec fn view(&self) -> CommandView {
        match *self {
            Command::Help => CommandView::Help,
            Command::Add => CommandView::Add,
            Command::List => CommandView::List,
            Command::Get => CommandView::Get,
            Command::Delete => CommandView::Delete,
            Command::Unknown { word } => CommandView::Unknown { word: word@ },
        }
    }
}

/// What the caller is to do next.
#[derive(Debug, PartialEq, Eq)]
pub enum Action {
    /// Print `text` and then `prompt`, each unless it is empty; read a line;
    /// come back with the reply that the line holds as one more reply.
    Ask { text: String, prompt: String },
    /// Print `text`, to the error stream if `error` is set, and stop. Where
    /// `status` holds a number, end the process with it at once.
    Say { text: String, error: bool, status: Option<i32> },
    /// Write `accounts` to the file as the whole store, print `message`, and
    /// stop.
    Save { accounts: Vec<AccountEntry>, message: String },
    /// Put `secret` on the clipboard, print `message`, and stop.
    Copy { secret: String, message: String },
}

/// An action over texts and entries.
pub ghost enum ActionView {
    Ask { text: Seq<char>, prompt: Seq<char> },
    Say { text: Seq<char>, error: bool, status: Option<i32> },
    Save { accounts: Seq<EntryView>, message: Seq<char> },
    Copy { secret: Seq<char>, message: Seq<char> },
}

impl View for Action {
    type V = ActionView;

    open spec fn view(&self) -> ActionView {
        match *self {
            Action::Ask { text, prompt } => ActionView::Ask { text: text@, prompt: prompt@ },
            Action::Say { text, error, status } => ActionView::Say { text: text@, error, status },
            Action::Save { accounts, message } => ActionView::Save {
                accounts: accounts.deep_view(),
                message: message@,
            },
            Action::Copy { secret, message } => ActionView::Copy {
                secret: secret@,
                message: message@,
            },
        }
    }
}

impl ActionView {
    /// A question with nothing printed before it.
    pub open spec fn ask(prompt: Seq<char>) -> ActionView {
        ActionView::Ask { text: Seq::empty(), prompt }
    }

    /// A text on standard output, after which the command returns.
    pub open spec fn say(text: Seq<char>) -> ActionView {
        ActionView::Say { text, error: false, status: None }
    }
}

impl Action {
    /// A question with nothing printed before it.
    pub fn ask(prompt: &str) -> (action: Action)
        ensures
            action@ == ActionView::ask(prompt@),
    {
        Action::Ask { text: String::new(), prompt: owned(prompt) }
    }

    /// A text on standard output, after which the command returns.
    pub fn say(text: String) -> (action: Action)
        ensures
            action@ == ActionView::say(text@),
    {
        Action::Say { text, error: false, status: None }
    }
}

/// The command that a word in lowercase names.
pub open spec fn command_of(folded: Seq<char>) -> CommandView {
    if folded == HELP@ {
        CommandView::Help
    } else if folded == ADD@ {
        CommandView::Add
    } else if folded == LIST@ {
        CommandView::List
    } else if folded == GET@ {
        CommandView::Get
    } else if folded == DELETE@ {
        CommandView::Delete
    } else {
        CommandView::Unknown { word: folded }
    }
}

/// What is said of a command that is not known.
pub open spec fn unknown_text(word: Seq<char>) -> Seq<char> {
    UNKNOWN_COMMAND@ + word + UNKNOWN_ADVICE@
}

/// What is said of a name that refers to no entry.
pub open spec fn not_found_text(name: Seq<char>) -> Seq<char> {
    NOT_FOUND@ + name + QUOTE@
}

/// The line that discloses the password of an entry.
pub open spec fn password_text(entry: EntryView) -> Seq<char> {
    PASSWORD_FOR@ + entry.account + PASSWORD_IS@ + entry.password
}

/// What `help` does: it shows the usage.
pub open spec fn help_model() -> ActionView {
    ActionView::say(HELP_TEXT@)
}

/// What is done for a word that names no command: the word is reported on
/// the error stream, and nothing else happens.
pub open spec fn unknown_model(word: Seq<char>) -> ActionView {
    ActionView::Say { text: unknown_text(word), error: true, status: None }
}

/// What is done where no command was given: a complaint on the error stream,
/// and the process ends with a status that is not zero.
pub open spec fn missing_model() -> ActionView {
    ActionView::Say { text: MISSING_COMMAND@, error: true, status: Some(STATUS_MISSING) }
}

/// Whether the replies given to `add` ask for a generated password.
pub open spec fn add_generates(replies: Seq<Seq<char>>) -> bool {
    replies.len() >= 4 && is_yes(replies[3])
}

/// The store with the entry that the replies to `add` describe at its end.
pub open spec fn add_saves(
    entries: Seq<EntryView>,
    replies: Seq<Seq<char>>,
    password: Seq<char>,
) -> ActionView {
    ActionView::Save {
        accounts: entries.push(
            EntryView { account: replies[0], username: replies[1], email: replies[2], password },
        ),
        message: ADDED@,
    }
}

/// What `add` does next. It asks for the account, the user name and the
/// e-mail address, then whether to generate the password. On yes the entry
/// gets the generated password; else the password is asked for. The entry
/// goes to the end of the store, which is saved. Replies beyond those that
/// were asked for do not count.
pub open spec fn add_model(
    entries: Seq<EntryView>,
    replies: Seq<Seq<char>>,
    generated: Seq<char>,
) -> ActionView {
    if replies.len() == 0 {
        ActionView::ask(ASK_ACCOUNT@)
    } else if replies.len() == 1 {
        ActionView::ask(ASK_USERNAME@)
    } else if replies.len() == 2 {
        ActionView::ask(ASK_EMAIL@)
    } else if replies.len() == 3 {
        ActionView::ask(ASK_GENERATE@)
    } else if is_yes(replies[3]) {
        add_saves(entries, replies, generated)
    } else if replies.len() == 4 {
        ActionView::ask(ASK_PASSWORD@)
    } else {
        add_saves(entries, replies, replies[4])
    }
}

/// What `list` does: it shows the table of all entries, or says that there
/// are none.
pub open spec fn list_model(entries: Seq<EntryView>) -> ActionView {
    if entries.len() == 0 {
        ActionView::say(NO_ACCOUNTS@)
    } else {
        ActionView::say(table_of(entries))
    }
}

/// What `get` does next. It asks for a name. Where the name refers to no
/// entry it says so. Else it shows the first entry that the name refers to
/// and asks whether to copy the password: on yes the password goes to the
/// clipboard, else it is printed.
pub open spec fn get_model(entries: Seq<EntryView>, replies: Seq<Seq<char>>) -> ActionView {
    if replies.len() == 0 {
        ActionView::ask(ASK_NAME@)
    } else {
        match first_match(entries, replies[0]) {
            None => ActionView::say(not_found_text(replies[0])),
            Some(i) => if replies.len() == 1 {
                ActionView::Ask { text: table_of(seq![entries[i]]), prompt: ASK_COPY@ }
            } else if is_yes(replies[1]) {
                ActionView::Copy { secret: entries[i].password, message: COPIED@ }
            } else {
                ActionView::say(password_text(entries[i]))
            },
        }
    }
}

/// What `delete` does next. On an empty store it says so and ends the process
/// with status 0, whatever the replies. Else it shows all entries and asks
/// for a name. The first entry that the name refers to leaves the store,
/// which is saved; where there is none it says so, and nothing is saved.
pub open spec fn delete_model(entries: Seq<EntryView>, replies: Seq<Seq<char>>) -> ActionView {
    if entries.len() == 0 {
        ActionView::Say { text: NOTHING_TO_DELETE@, error: false, status: Some(STATUS_NOTHING) }
    } else if replies.len() == 0 {
        ActionView::Ask { text: table_of(entries), prompt: ASK_DELETE@ }
    } else {
        match first_match(entries, replies[0]) {
            Some(i) => ActionView::Save { accounts: entries.remove(i), message: DELETED@ },
            None => ActionView::say(not_found_text(replies[0])),
        }
    }
}

/// On an empty store `list` only says that there are no accounts, and
/// `delete` says so and ends the process with status 0 without asking
/// anything, whatever replies it is handed.
pub proof fn lemma_empty_store(replies: Seq<Seq<char>>)
    ensures
        list_model(Seq::empty()) == ActionView::say(NO_ACCOUNTS@),
        delete_model(Seq::empty(), replies) == (ActionView::Say {
            text: NOTHING_TO_DELETE@,
            error: false,
            status: Some(0i32),
        }),
{
}

/// `delete` with a name saves the store without the first entry that the
/// name refers to; with a name that refers to none it saves nothing and
/// reports the name.
pub proof fn lemma_delete_by_name(entries: Seq<EntryView>, name: Seq<char>)
    requires
        entries.len() > 0,
    ensures
        !is_absent(entries, name) ==> delete_model(entries, seq![name]) == (ActionView::Save {
            accounts: after_delete(entries, name),
            message: DELETED@,
        }),
        is_absent(entries, name) ==> delete_model(entries, seq![name]) == ActionView::say(
            not_found_text(name),
        ),
{
    lemma_first_match_none(entries, name);
}

/// The command that a word in lowercase names.
pub fn command_from_folded(folded: String) -> (command: Command)
    ensures
        command@ == command_of(folded@),
{
    if folded == owned(HELP) {
        Command::Help
    } else if folded == owned(ADD) {
        Command::Add
    } else if folded == owned(LIST) {
        Command::List
    } else if folded == owned(GET) {
        Command::Get
    } else if folded == owned(DELETE) {
        Command::Delete
    } else {
        Command::Unknown { word: folded }
    }
}

/// The command that a word names. Case does not count.
pub fn parse_command(word: &str) -> (command: Command)
    ensures
        command@ == command_of(lowercase(word@)),
{
    command_from_folded(word.to_lowercase())
}

/// The command that the arguments of the program name, the first of which is
/// the program itself. Where they name none, what is to be done instead.
pub fn read_command(arguments: &Vec<String>) -> (outcome: Result<Command, Action>)
    ensures
        match outcome {
            Ok(command) => arguments.len() >= 2 && command@ == command_of(
                lowercase(arguments@[1]@),
            ),
            Err(action) => arguments.len() < 2 && action@ == missing_model(),
        },
{
    if arguments.len() < 2 {
        Err(Action::Say { text: owned(MISSING_COMMAND), error: true, status: Some(STATUS_MISSING) })
    } else {
        Ok(parse_command(arguments[1].as_str()))
    }
}

impl Command {
    /// Whether the command works on the store, so that the store has to be
    /// read before the command runs.
    pub fn needs_store(&self) -> (needed: bool)
        ensures
            needed == (self@ is Add || self@ is List || self@ is Get || self@ is Delete),
    {
        match self {
            Command::Add | Command::List | Command::Get | Command::Delete => true,
            _ => false,
        }
    }
}

/// What `help` does.
pub fn show_help() -> (action: Action)
    ensures
        action@ == help_model(),
{
    Action::say(owned(HELP_TEXT))
}

/// What is done for a word that names no command.
pub fn unknown_command(word: &str) -> (action: Action)
    ensures
        action@ == unknown_model(word@),
{
    let text = owned(UNKNOWN_COMMAND).concat(word).concat(UNKNOWN_ADVICE);
    Action::Say { text, error: true, status: None }
}

fn not_found(name: &str) -> (action: Action)
    ensures
        action@ == ActionView::say(not_found_text(name@)),
{
    Action::say(owned(NOT_FOUND).concat(name).concat(QUOTE))
}

/// What `add` does next where `generated` is the password that an entry gets
/// if the replies ask for a generated one.
pub fn add_account_with(
    accounts: &Vec<AccountEntry>,
    replies: &Vec<String>,
    generated: String,
) -> (action: Action)
    ensures
        action@ == add_model(accounts.deep_view(), replies.deep_view(), generated@),
{
    let count = replies.len();
    if count == 0 {
        Action::ask(ASK_ACCOUNT)
    } else if count == 1 {
        Action::ask(ASK_USERNAME)
    } else if count == 2 {
        Action::ask(ASK_EMAIL)
    } else if count == 3 {
        Action::ask(ASK_GENERATE)
    } else {
        let generate = prompt_yes_no(replies[3].as_str());
        if !generate && count == 4 {
            Action::ask(ASK_PASSWORD)
        } else {
            let password = if generate {
                generated
            } else {
                replies[4].clone()
            };
            let entry = AccountEntry::new(
                replies[0].clone(),
                replies[1].clone(),
                replies[2].clone(),
                password,
            );
            Action::Save { accounts: with_entry(accounts, entry), message: owned(ADDED) }
        }
    }
}

/// What `add` does next. Where the replies ask for a generated password, a
/// new one is generated for the entry.
pub fn add_account(accounts: &Vec<AccountEntry>, replies: &Vec<String>) -> (action: Action)
    ensures
        exists|password: Seq<char>|
            (add_generates(replies.deep_view()) ==> is_strong_password(password)) && action@
                == #[trigger] add_model(accounts.deep_view(), replies.deep_view(), password),
{
    let generated = if replies.len() >= 4 && prompt_yes_no(replies[3].as_str()) {
        generate_random_password()
    } else {
        String::new()
    };
    add_account_with(accounts, replies, generated)
}

/// What `list` does.
pub fn list_accounts(accounts: &Vec<AccountEntry>) -> (action: Action)
    ensures
        action@ == list_model(accounts.deep_view()),
{
    if accounts.len() == 0 {
        Action::say(owned(NO_ACCOUNTS))
    } else {
        Action::say(render_table(accounts))
    }
}

/// What `get` does next.
pub fn get_account(accounts: &Vec<AccountEntry>, replies: &Vec<String>) -> (action: Action)
    ensures
        action@ == get_model(accounts.deep_view(), replies.deep_view()),
{
    if replies.len() == 0 {
        return Action::ask(ASK_NAME);
    }
    let name = replies[0].as_str();
    match find_account(accounts, name) {
        None => not_found(name),
        Some(i) => {
            let entry = &accounts[i];
            if replies.len() == 1 {
                Action::Ask { text: render_entry(entry), prompt: owned(ASK_COPY) }
            } else if prompt_yes_no(replies[1].as_str()) {
                Action::Copy { secret: entry.password.clone(), message: owned(COPIED) }
            } else {
                let text = owned(PASSWORD_FOR).concat(entry.account.as_str()).concat(
                    PASSWORD_IS,
                ).concat(entry.password.as_str());
                Action::say(text)
            }
        },
    }
}

/// What `delete` does next.
pub fn delete_account(accounts: &Vec<AccountEntry>, replies: &Vec<String>) -> (action: Action)
    ensures
        action@ == delete_model(accounts.deep_view(), replies.deep_view()),
{
    if accounts.len() == 0 {
        return Action::Say {
            text: owned(NOTHING_TO_DELETE),
            error: false,
            status: Some(STATUS_NOTHING),
        };
    }
    if replies.len() == 0 {
        return Action::Ask { text: render_table(accounts), prompt: owned(ASK_DELETE) };
    }
    let name = replies[0].as_str();
    match find_account(accounts, name) {
        Some(i) => Action::Save { accounts: without_entry(accounts, i), message: owned(DELETED) },
        None => not_found(name),
    }
}

/// What a command does next, given the store and the replies so far.
pub fn run_command(
    command: &Command,
    accounts: &Vec<AccountEntry>,
    replies: &Vec<String>,
) -> (action: Action)
    ensures
        match command@ {
            CommandView::Help => action@ == help_model(),
            CommandView::Add => exists|password: Seq<char>|
                (add_generates(replies.deep_view()) ==> is_strong_password(password)) && action@
                    == #[trigger] add_model(accounts.deep_view(), replies.deep_view(), password),
            CommandView::List => action@ == list_model(accounts.deep_view()),
            CommandView::Get => action@ == get_model(accounts.deep_view(), replies.deep_view()),
            CommandView::Delete => action@ == delete_model(
                accounts.deep_view(),
                replies.deep_view(),
            ),
            CommandView::Unknown { word } => action@ == unknown_model(word),
        },
{
    match command {
        Command::Help => show_help(),
        Command::Add => add_account(accounts, replies),
        Command::List => list_accounts(accounts),
        Command::Get => get_account(accounts, replies),
        Command::Delete => delete_account(accounts, replies),
        Command::Unknown { word } => unknown_command(word.as_str()),
    }
}

} // verus!
