//! `tiktok accounts add|list|test|remove`: the decisions and reports of account management.
//! Reading the configuration, the keystore, the terminal and the API is left to the caller,
//! which hands the results to these functions.

use vstd::prelude::*;
use crate::cli::AccountsCommand;
use crate::client::member;
use crate::error::{Error, ErrorCode, ErrorView};
use crate::json;
use crate::json::{no_members, JsonView};
use crate::account::{describe, described, usable_key};
use crate::text::{
    ascii_lower, before, eq_ignore_ascii_case, lemma_before_irreflexive, lemma_before_transitive, name_before,
    opt_text, owned, same_ignoring_ascii_case, trim, trimmed,
};

verus! {

// ---------------------------------------------------------------------------------------
// Dispatch
// ---------------------------------------------------------------------------------------

/// The account-management work a subcommand asks for.
pub enum AccountsTask {
    /// Add (or with `force` replace) an account. The key is read from stdin when
    /// `key_from_stdin`; otherwise `api_key` is the key given, if any.
    Add {
        name: String,
        api_key: Option<String>,
        key_from_stdin: bool,
        force: bool,
        skip_verification: bool,
    },
    List { check: bool },
    Test { name: String },
    Remove { name: String, yes: bool },
}

/// Each subcommand asks for the work it names, with its options as given: `list` probes the
/// stored keys exactly when `--check` is given; `test` and `remove` keep the account name, and
/// `remove` its `--yes`; `add` keeps its name and flags, and the key given on the command line
/// unless the key is to be read from stdin, in which case none is.
pub proof fn lemma_task_keeps_options(cmd: AccountsCommand)
    ensures
        task_for(cmd) is List <==> cmd is List,
        task_for(cmd) is Test <==> cmd is Test,
        task_for(cmd) is Remove <==> cmd is Remove,
        task_for(cmd) is Add <==> cmd is Add,
        cmd matches AccountsCommand::List { check } ==> (task_for(cmd) matches AccountsTask::List {
            check: c,
        } && c == check),
        cmd matches AccountsCommand::Test { name } ==> (task_for(cmd) matches AccountsTask::Test {
            name: n,
        } && n == name),
        cmd matches AccountsCommand::Remove { name, yes } ==> (task_for(
            cmd,
        ) matches AccountsTask::Remove { name: n, yes: y } && n == name && y == yes),
        cmd matches AccountsCommand::Add { name, api_key, api_key_stdin, force, skip_verification }
            ==> (task_for(cmd) matches AccountsTask::Add {
            name: n,
            api_key: k,
            key_from_stdin: from_stdin,
            force: f,
            skip_verification: s,
        } && n == name && from_stdin == api_key_stdin && f == force && s == skip_verification && (
        api_key_stdin ==> k is None) && (!api_key_stdin ==> k == api_key)),
{
}

/// The task for a subcommand: `--api-key-stdin` takes the place of `--api-key`.
pub open spec fn task_for(cmd: AccountsCommand) -> AccountsTask {
    match cmd {
        AccountsCommand::Add { name, api_key, api_key_stdin, force, skip_verification } => {
            AccountsTask::Add {
                name,
                api_key: if api_key_stdin {
                    None
                } else {
                    api_key
                },
                key_from_stdin: api_key_stdin,
                force,
                skip_verification,
            }
        },
        AccountsCommand::List { check } => AccountsTask::List { check },
        AccountsCommand::Test { name } => AccountsTask::Test { name },
        AccountsCommand::Remove { name, yes } => AccountsTask::Remove { name, yes },
    }
}

/// The task for an `accounts` subcommand.
pub fn run(cmd: AccountsCommand) -> (res: AccountsTask)
    ensures
        res == task_for(cmd),
{
    match cmd {
        AccountsCommand::Add { name, api_key, api_key_stdin, force, skip_verification } => {
            AccountsTask::Add {
                name,
                api_key: if api_key_stdin {
                    None
                } else {
                    api_key
                },
                key_from_stdin: api_key_stdin,
                force,
                skip_verification,
            }
        },
        AccountsCommand::List { check } => AccountsTask::List { check },
        AccountsCommand::Test { name } => AccountsTask::Test { name },
        AccountsCommand::Remove { name, yes } => AccountsTask::Remove { name, yes },
    }
}

// ---------------------------------------------------------------------------------------
// Looking accounts up
// ---------------------------------------------------------------------------------------

/// One stored account, as the configuration keeps it.
#[derive(Debug)]
pub struct StoredAccount {
    pub name: String,
    pub identity: String,
    pub added_at: String,
}

/// What a stored account holds, as text.
pub struct AccountView {
    pub name: Seq<char>,
    pub identity: Seq<char>,
    pub added_at: Seq<char>,
}

impl View for StoredAccount {
    type V = AccountView;

    open spec fn view(&self) -> AccountView {
        AccountView { name: self.name@, identity: self.identity@, added_at: self.added_at@ }
    }
}

/// The stored accounts, as text, in the order the configuration keeps them.
pub open spec fn accounts_view(accounts: Seq<StoredAccount>) -> Seq<AccountView> {
    accounts.map_values(|a: StoredAccount| a@)
}

/// The names of the stored accounts, in order.
pub open spec fn names_of(accounts: Seq<StoredAccount>) -> Seq<Seq<char>> {
    accounts.map_values(|a: StoredAccount| a.name@)
}

/// `i` is the position of the first stored account name that equals `name` ignoring ASCII
/// case.
pub open spec fn found_at(names: Seq<Seq<char>>, name: Seq<char>, i: int) -> bool {
    &&& 0 <= i < names.len()
    &&& same_ignoring_ascii_case(names[i], name)
    &&& forall|j: int| 0 <= j < i ==> !same_ignoring_ascii_case(#[trigger] names[j], name)
}

/// There is at most one first match.
pub proof fn lemma_found_at_unique(names: Seq<Seq<char>>, name: Seq<char>, i: int, j: int)
    requires
        found_at(names, name, i),
        found_at(names, name, j),
    ensures
        i == j,
{
    if i < j {
        assert(!same_ignoring_ascii_case(names[i], name));
    } else if j < i {
        assert(!same_ignoring_ascii_case(names[j], name));
    }
}

/// The names of the stored accounts.
pub fn account_names(accounts: &Vec<StoredAccount>) -> (res: Vec<String>)
    ensures
        res.deep_view() == names_of(accounts@),
{
    let mut res: Vec<String> = Vec::new();
    let mut i: usize = 0;
    while i < accounts.len()
        invariant
            i <= accounts.len(),
            res.deep_view() == names_of(accounts@.take(i as int)),
        decreases accounts.len() - i,
    {
        let ghost before = res.deep_view();
        res.push(accounts[i].name.clone());
        assert(res.deep_view() =~= before.push(accounts@[i as int].name@));
        assert(names_of(accounts@.take(i + 1)) =~= names_of(accounts@.take(i as int)).push(
            accounts@[i as int].name@,
        ));
        i = i + 1;
    }
    assert(accounts@.take(accounts.len() as int) =~= accounts@);
    res
}

/// The stored account that `name` refers to: the first whose name equals it ignoring ASCII
/// case; the `no_account` error, listing the stored accounts, when there is none.
pub fn lookup(name: &str, accounts: &Vec<StoredAccount>) -> (res: Result<usize, Error>)
    ensures
        match res {
            Ok(i) => found_at(names_of(accounts@), name@, i as int),
            Err(e) => (forall|j: int|
                0 <= j < accounts.len() ==> !same_ignoring_ascii_case(
                    #[trigger] names_of(accounts@)[j],
                    name@,
                )) && e@ == no_account_view(name@, described(names_of(accounts@))),
        },
{
    let mut i: usize = 0;
    while i < accounts.len()
        invariant
            i <= accounts.len(),
            forall|j: int|
                0 <= j < i ==> !same_ignoring_ascii_case(#[trigger] names_of(accounts@)[j], name@),
        decreases accounts.len() - i,
    {
        if eq_ignore_ascii_case(accounts[i].name.as_str(), name) {
            return Ok(i);
        }
        i = i + 1;
    }
    let names = account_names(accounts);
    Err(no_account(name, describe(&names)))
}

/// The error for a name that no stored account has.
pub open spec fn no_account_view(name: Seq<char>, description: Seq<char>) -> ErrorView {
    ErrorView::plain(ErrorCode::NoAccount, "No account named '"@ + name + "'."@).with_detail(
        description,
    ).with_fix("tiktok accounts list"@)
}

/// The error for a name that no stored account has; `description` says which accounts
/// there are.
pub fn no_account(name: &str, description: String) -> (res: Error)
    ensures
        res@ == no_account_view(name@, description@),
{
    let mut message = owned("No account named '");
    message.append(name);
    message.append("'.");
    Error::new(ErrorCode::NoAccount, message).detail(description).fix(owned("tiktok accounts list"))
}

// ---------------------------------------------------------------------------------------
// add
// ---------------------------------------------------------------------------------------

/// The text of an optional string slice.
pub open spec fn opt_str(o: Option<&str>) -> Option<Seq<char>> {
    match o {
        Some(s) => Some(s@),
        None => None,
    }
}

/// The error for adding an account under a name that is taken, without `--force`.
pub open spec fn name_taken_view(existing: Seq<char>) -> ErrorView {
    ErrorView::plain(
        ErrorCode::InvalidInput,
        "An account named '"@ + existing + "' already exists."@,
    ).with_fix(
        "Pick a different name, or replace its key: tiktok accounts add "@ + existing
            + " --api-key <key> --force"@,
    )
}

/// The error for `--api-key-stdin` with nothing on stdin.
pub open spec fn stdin_empty_view() -> ErrorView {
    ErrorView::plain(
        ErrorCode::InvalidInput,
        "--api-key-stdin was given but stdin was empty."@,
    )
}

/// The key an account is added with, before any prompt: the trimmed line read from stdin
/// with `--api-key-stdin`, else the trimmed `--api-key` unless it is blank.
pub open spec fn add_key(stdin_line: Option<Seq<char>>, api_key: Option<Seq<char>>) -> Option<Seq<char>> {
    match stdin_line {
        Some(l) => Some(trim(l)),
        None => usable_key(api_key),
    }
}

/// How an account is to be added: under which name, with which key (`None`: prompt for
/// it), in place of which stored account (`slot`, if any), and whether the key is to be
/// verified against the API (`users/me`) first.
pub struct AddPlan {
    pub name: String,
    pub key: Option<String>,
    pub slot: Option<usize>,
    pub verify: bool,
}

/// What `add` decides: an empty stdin key and a blank name are refused, in that order; a
/// name that a stored account has (ignoring ASCII case) is refused without `force`, and
/// with it the account keeps its stored name and place; any other name is added as given,
/// trimmed.
pub open spec fn add_post(
    name: Seq<char>,
    stdin_line: Option<Seq<char>>,
    api_key: Option<Seq<char>>,
    accounts: Seq<StoredAccount>,
    force: bool,
    skip_verification: bool,
    res: Result<AddPlan, Error>,
) -> bool {
    let names = names_of(accounts);
    let n = trim(name);
    let key = add_key(stdin_line, api_key);
    if stdin_line is Some && trim(stdin_line->0).len() == 0 {
        res matches Err(e) && e@ == stdin_empty_view()
    } else if n.len() == 0 {
        res matches Err(e) && e@ == ErrorView::plain(
            ErrorCode::InvalidInput,
            "An account name is required."@,
        )
    } else if exists|i: int| found_at(names, n, i) {
        let i = choose|i: int| found_at(names, n, i);
        if force {
            res matches Ok(p) && p.name@ == names[i] && p.slot == Some(i as usize) && opt_text(p.key)
                == key && p.verify == !skip_verification
        } else {
            res matches Err(e) && e@ == name_taken_view(names[i])
        }
    } else {
        res matches Ok(p) && p.name@ == n && p.slot is None && opt_text(p.key) == key && p.verify
            == !skip_verification
    }
}

/// Decides how to add an account: `name` as given, `stdin_line` the line read from stdin
/// with `--api-key-stdin` (`None` without it), `api_key` the `--api-key` value, `accounts`
/// the stored accounts (see `add_post`).
pub fn add(
    name: &str,
    stdin_line: Option<&str>,
    api_key: Option<String>,
    accounts: &Vec<StoredAccount>,
    force: bool,
    skip_verification: bool,
) -> (res: Result<AddPlan, Error>)
    ensures
        add_post(
            name@,
            opt_str(stdin_line),
            opt_text(api_key),
            accounts@,
            force,
            skip_verification,
            res,
        ),
{
    let key = match stdin_line {
        Some(line) => Some(read_stdin_key(line)?),
        None => match api_key {
            Some(k) => {
                let t = trimmed(k.as_str());
                if t.as_str().is_empty() {
                    None
                } else {
                    Some(t)
                }
            },
            None => None,
        },
    };
    let n = trimmed(name);
    if n.as_str().is_empty() {
        return Err(Error::invalid(owned("An account name is required.")));
    }
    let ghost names = names_of(accounts@);
    match lookup(n.as_str(), accounts) {
        Ok(i) => {
            proof {
                assert forall|j: int| found_at(names, n@, j) implies j == i by {
                    lemma_found_at_unique(names, n@, i as int, j);
                }
            }
            let existing = accounts[i].name.clone();
            if !force {
                let mut message = owned("An account named '");
                message.append(existing.as_str());
                message.append("' already exists.");
                let mut fix = owned("Pick a different name, or replace its key: tiktok accounts add ");
                fix.append(existing.as_str());
                fix.append(" --api-key <key> --force");
                return Err(Error::invalid(message).fix(fix));
            }
            Ok(AddPlan { name: existing, key, slot: Some(i), verify: !skip_verification })
        },
        Err(_) => {
            proof {
                assert forall|j: int| !found_at(names, n@, j) by {
                    if found_at(names, n@, j) {
                        assert(!same_ignoring_ascii_case(names[j], n@));
                    }
                }
            }
            Ok(AddPlan { name: n, key, slot: None, verify: !skip_verification })
        },
    }
}

/// Where some stored name matches, a first one does.
proof fn lemma_first_match(names: Seq<Seq<char>>, name: Seq<char>, j: int)
    requires
        0 <= j < names.len(),
        same_ignoring_ascii_case(names[j], name),
    ensures
        exists|i: int| found_at(names, name, i),
    decreases j,
{
    if exists|k: int| 0 <= k < j && same_ignoring_ascii_case(#[trigger] names[k], name) {
        let k = choose|k: int| 0 <= k < j && same_ignoring_ascii_case(#[trigger] names[k], name);
        lemma_first_match(names, name, k);
    } else {
        assert(found_at(names, name, j));
    }
}

/// Adding never stores a second account under a name already taken: a plan to append names
/// an account that no stored one matches (ignoring ASCII case), and a plan to replace comes
/// only with `force` and keeps the stored name of the account it replaces. A plan's name is
/// never blank, it verifies the key unless `--skip-verification` is given, and its key is the
/// line read from stdin when there is one, else the `--api-key` given, trimmed, unless blank.
/// Adding is refused exactly when stdin was empty, the name is blank, or the name is taken
/// without `force`.
pub proof fn lemma_add_plans(
    name: Seq<char>,
    stdin_line: Option<Seq<char>>,
    api_key: Option<Seq<char>>,
    accounts: Seq<StoredAccount>,
    force: bool,
    skip_verification: bool,
    res: Result<AddPlan, Error>,
)
    requires
        accounts.len() <= usize::MAX,
        add_post(name, stdin_line, api_key, accounts, force, skip_verification, res),
    ensures
        res matches Ok(p) ==> (p.slot is None ==> forall|j: int|
            0 <= j < accounts.len() ==> !same_ignoring_ascii_case(
                #[trigger] names_of(accounts)[j],
                p.name@,
            )),
        res matches Ok(p) ==> (p.slot matches Some(i) ==> force && i < accounts.len()
            && names_of(accounts)[i as int] == p.name@ && same_ignoring_ascii_case(
            p.name@,
            trim(name),
        )),
        res matches Ok(p) ==> p.name@.len() > 0 && p.verify == !skip_verification,
        res matches Ok(p) ==> (stdin_line matches Some(l) ==> opt_text(p.key) == Some(trim(l))),
        res matches Ok(p) ==> (stdin_line is None ==> (api_key matches Some(k) ==> (trim(k).len()
            > 0 ==> opt_text(p.key) == Some(trim(k))))),
        res matches Ok(p) ==> (stdin_line is None ==> (api_key matches Some(k) ==> (trim(k).len()
            == 0 ==> p.key is None))),
        res matches Ok(p) ==> (stdin_line is None ==> (api_key is None ==> p.key is None)),
        res is Err <==> (stdin_line matches Some(l) && trim(l).len() == 0) || trim(name).len()
            == 0 || (!force && exists|j: int|
            0 <= j < accounts.len() && same_ignoring_ascii_case(
                #[trigger] names_of(accounts)[j],
                trim(name),
            )),
{
    let names = names_of(accounts);
    let n = trim(name);
    if exists|j: int| 0 <= j < accounts.len() && same_ignoring_ascii_case(#[trigger] names[j], n) {
        let j = choose|j: int| 0 <= j < accounts.len() && same_ignoring_ascii_case(#[trigger] names[j], n);
        lemma_first_match(names, n, j);
    }
    if exists|i: int| found_at(names, n, i) {
        if let Ok(p) = res {
            let c = p.slot->0 as int;
            assert(found_at(names, n, c));
            assert(p.name@ == names[c]);
            assert forall|k: int| 0 <= k < p.name@.len() implies ascii_lower(#[trigger] p.name@[k])
                == ascii_lower(n[k]) by {
                assert(ascii_lower(names[c][k]) == ascii_lower(n[k]));
            }
        }
    } else {
        assert forall|j: int| 0 <= j < accounts.len() implies !same_ignoring_ascii_case(
            #[trigger] names[j],
            n,
        ) by {
            if same_ignoring_ascii_case(names[j], n) {
                lemma_first_match(names, n, j);
            }
        }
        if let Ok(p) = res {
            assert forall|j: int| 0 <= j < accounts.len() implies !same_ignoring_ascii_case(
                #[trigger] names_of(accounts)[j],
                p.name@,
            ) by {
                assert(!same_ignoring_ascii_case(names[j], n));
            }
        }
    }
}

/// The error when a key must be prompted for but there is no terminal.
pub fn no_terminal(name: &str) -> (res: Error)
    ensures
        res@ == ErrorView::plain(
            ErrorCode::InvalidInput,
            "No API key given and no terminal to prompt on."@,
        ).with_fix("pbpaste | tiktok accounts add "@ + name@ + " --api-key-stdin"@),
{
    let mut fix = owned("pbpaste | tiktok accounts add ");
    fix.append(name);
    fix.append(" --api-key-stdin");
    Error::invalid(owned("No API key given and no terminal to prompt on.")).fix(fix)
}

/// The prompt for an account's key.
pub fn key_prompt(name: &str) -> (res: String)
    ensures
        res@ == "Enter Apify API token for '"@ + name@ + "': "@,
{
    let mut prompt = owned("Enter Apify API token for '");
    prompt.append(name);
    prompt.append("': ");
    prompt
}

/// The error when the prompt could not be read; `description` is the reason.
pub fn prompt_failure(description: String) -> (res: Error)
    ensures
        res@ == ErrorView::plain(ErrorCode::Error, "Could not read API token."@).with_detail(
            description@,
        ),
{
    Error::other(owned("Could not read API token.")).detail(description)
}

/// The key for an account that has none given: `entered` is what was typed at the prompt,
/// or `None` when stdin is not a terminal and nothing could be prompted for. The typed key
/// is trimmed and must not be empty.
pub fn prompt_key(name: &str, entered: Option<&str>) -> (res: Result<String, Error>)
    ensures
        match entered {
            None => res matches Err(e) && e@ == ErrorView::plain(
                ErrorCode::InvalidInput,
                "No API key given and no terminal to prompt on."@,
            ).with_fix("pbpaste | tiktok accounts add "@ + name@ + " --api-key-stdin"@),
            Some(t) => match res {
                Ok(k) => trim(t@).len() > 0 && k@ == trim(t@),
                Err(e) => trim(t@).len() == 0 && e@ == ErrorView::plain(
                    ErrorCode::InvalidInput,
                    "API token cannot be empty."@,
                ),
            },
        },
{
    let entered = match entered {
        Some(t) => t,
        None => return Err(no_terminal(name)),
    };
    let key = trimmed(entered);
    if key.as_str().is_empty() {
        Err(Error::invalid(owned("API token cannot be empty.")))
    } else {
        Ok(key)
    }
}

/// The key read from the line given on stdin: trimmed, and not empty.
pub fn read_stdin_key(line: &str) -> (res: Result<String, Error>)
    ensures
        match res {
            Ok(k) => trim(line@).len() > 0 && k@ == trim(line@),
            Err(e) => trim(line@).len() == 0 && e@ == ErrorView::plain(
                ErrorCode::InvalidInput,
                "--api-key-stdin was given but stdin was empty."@,
            ),
        },
{
    let key = trimmed(line);
    if key.as_str().is_empty() {
        Err(Error::invalid(owned("--api-key-stdin was given but stdin was empty.")))
    } else {
        Ok(key)
    }
}

/// The error when stdin could not be read; `description` is the reason.
pub fn stdin_failure(description: &str) -> (res: Error)
    ensures
        res@ == ErrorView::plain(ErrorCode::InvalidInput, "Could not read stdin: "@ + description@),
{
    let mut message = owned("Could not read stdin: ");
    message.append(description);
    Error::invalid(message)
}

/// The report of an added account.
pub open spec fn add_report_members(
    name: Seq<char>,
    replacing: bool,
    identity: Seq<char>,
    verified: bool,
    secret_store: Seq<char>,
    config_dir: Seq<char>,
) -> Map<Seq<char>, JsonView> {
    no_members().insert(
        "status"@,
        JsonView::Str(
            if replacing {
                "replaced"@
            } else {
                "added"@
            },
        ),
    ).insert("name"@, JsonView::Str(name)).insert("identity"@, JsonView::Str(identity)).insert(
        "verified"@,
        JsonView::Bool(verified),
    ).insert("secretStore"@, JsonView::Str(secret_store)).insert(
        "configDir"@,
        JsonView::Str(config_dir),
    ).insert("nextStep"@, JsonView::Str("tiktok profile nike --account "@ + name))
}

/// What the report of an added account says: `replaced` when it replaced a stored account
/// and `added` otherwise, the account's name and identity, whether the key was verified, where
/// keys and configuration are kept, and the next command to try with the account; nothing
/// else.
pub proof fn lemma_add_report_says(
    name: Seq<char>,
    replacing: bool,
    identity: Seq<char>,
    verified: bool,
    secret_store: Seq<char>,
    config_dir: Seq<char>,
)
    ensures
        ({
            let m = add_report_members(name, replacing, identity, verified, secret_store, config_dir);
            &&& m.contains_key("status"@)
            &&& replacing ==> m["status"@] == JsonView::Str("replaced"@)
            &&& !replacing ==> m["status"@] == JsonView::Str("added"@)
            &&& m.contains_key("name"@) && m["name"@] == JsonView::Str(name)
            &&& m.contains_key("identity"@) && m["identity"@] == JsonView::Str(identity)
            &&& m.contains_key("verified"@) && m["verified"@] == JsonView::Bool(verified)
            &&& m.contains_key("secretStore"@) && m["secretStore"@] == JsonView::Str(secret_store)
            &&& m.contains_key("configDir"@) && m["configDir"@] == JsonView::Str(config_dir)
            &&& m.contains_key("nextStep"@) && m["nextStep"@] == JsonView::Str(
                "tiktok profile nike --account "@ + name,
            )
            &&& forall|k: Seq<char>|
                m.contains_key(k) ==> k == "status"@ || k == "name"@ || k == "identity"@ || k
                    == "verified"@ || k == "secretStore"@ || k == "configDir"@ || k == "nextStep"@
        }),
{
    reveal_strlit("status");
    reveal_strlit("name");
    reveal_strlit("identity");
    reveal_strlit("verified");
    reveal_strlit("secretStore");
    reveal_strlit("configDir");
    reveal_strlit("nextStep");
    assert("status"@.len() != "name"@.len());
    assert("status"@.len() != "identity"@.len());
    assert("status"@.len() != "verified"@.len());
    assert("status"@.len() != "secretStore"@.len());
    assert("status"@.len() != "configDir"@.len());
    assert("status"@.len() != "nextStep"@.len());
    assert("name"@.len() != "identity"@.len());
    assert("name"@.len() != "verified"@.len());
    assert("name"@.len() != "secretStore"@.len());
    assert("name"@.len() != "configDir"@.len());
    assert("name"@.len() != "nextStep"@.len());
    assert("identity"@[0] != "verified"@[0]);
    assert("identity"@.len() != "secretStore"@.len());
    assert("identity"@.len() != "configDir"@.len());
    assert("identity"@[0] != "nextStep"@[0]);
    assert("verified"@.len() != "secretStore"@.len());
    assert("verified"@.len() != "configDir"@.len());
    assert("verified"@[0] != "nextStep"@[0]);
    assert("secretStore"@.len() != "configDir"@.len());
    assert("secretStore"@.len() != "nextStep"@.len());
    assert("configDir"@.len() != "nextStep"@.len());
}

/// The report of an added account: `added`, or `replaced` when it replaced a stored one.
pub fn add_report(
    name: &str,
    replacing: bool,
    identity: &str,
    verified: bool,
    secret_store: &str,
    config_dir: &str,
) -> (res: serde_json::Value)
    ensures
        json::json_view(res) == JsonView::Object(
            add_report_members(name@, replacing, identity@, verified, secret_store@, config_dir@),
        ),
{
    let mut m = json::new_map();
    let status = if replacing {
        "replaced"
    } else {
        "added"
    };
    json::insert(&mut m, owned("status"), json::string(owned(status)));
    json::insert(&mut m, owned("name"), json::string(owned(name)));
    json::insert(&mut m, owned("identity"), json::string(owned(identity)));
    json::insert(&mut m, owned("verified"), json::boolean(verified));
    json::insert(&mut m, owned("secretStore"), json::string(owned(secret_store)));
    json::insert(&mut m, owned("configDir"), json::string(owned(config_dir)));
    let mut next = owned("tiktok profile nike --account ");
    next.append(name);
    json::insert(&mut m, owned("nextStep"), json::string(next));
    json::object(m)
}

/// The identity of an Apify user from the `users/me` document: `username (email)`, or
/// whichever of the two the document has, or empty.
pub open spec fn identity_view(doc: JsonView) -> Seq<char> {
    let data = member(doc, "data"@);
    let user = match data {
        Some(d) => match member(d, "username"@) {
            Some(JsonView::Str(u)) => Some(u),
            _ => None,
        },
        None => None,
    };
    let email = match data {
        Some(d) => match member(d, "email"@) {
            Some(JsonView::Str(e)) => Some(e),
            _ => None,
        },
        None => None,
    };
    match (user, email) {
        (Some(u), Some(e)) => u + " ("@ + e + ")"@,
        (Some(u), None) => u,
        (None, Some(e)) => e,
        (None, None) => Seq::empty(),
    }
}

/// How an identity is read from `users/me`: from the `data` object's string members
/// `username` and `email`, the username followed by the email in brackets when both are
/// there, either one alone when only it is, and nothing when neither is (nor `data`).
pub proof fn lemma_identity_parts(doc: JsonView)
    ensures
        member(doc, "data"@) is None ==> identity_view(doc) == Seq::<char>::empty(),
        member(doc, "data"@) matches Some(d) ==> (member(d, "username"@) matches Some(
            JsonView::Str(u),
        ) ==> (member(d, "email"@) matches Some(JsonView::Str(e)) ==> identity_view(doc) == u
            + " ("@ + e + ")"@)),
        member(doc, "data"@) matches Some(d) ==> (member(d, "username"@) matches Some(
            JsonView::Str(u),
        ) ==> (!(member(d, "email"@) matches Some(JsonView::Str(_))) ==> identity_view(doc)
            == u)),
        member(doc, "data"@) matches Some(d) ==> (member(d, "email"@) matches Some(
            JsonView::Str(e),
        ) ==> (!(member(d, "username"@) matches Some(JsonView::Str(_))) ==> identity_view(doc)
            == e)),
        member(doc, "data"@) matches Some(d) ==> (!(member(d, "username"@) matches Some(
            JsonView::Str(_),
        )) ==> (!(member(d, "email"@) matches Some(JsonView::Str(_))) ==> identity_view(doc)
            == Seq::<char>::empty())),
{
}

fn text_member(v: &serde_json::Value, key: &str) -> (res: Option<String>)
    ensures
        opt_text(res) == match member(json::json_view(*v), key@) {
            Some(JsonView::Str(s)) => Some(s),
            _ => None,
        },
{
    match json::get(v, key) {
        Some(x) => match json::as_str(x) {
            Some(s) => Some(owned(s)),
            None => None,
        },
        None => None,
    }
}

/// The identity of an Apify user from the `users/me` document.
pub fn identity_of(doc: &serde_json::Value) -> (res: String)
    ensures
        res@ == identity_view(json::json_view(*doc)),
{
    let data = json::get(doc, "data");
    let user = match data {
        Some(d) => text_member(d, "username"),
        None => None,
    };
    let email = match data {
        Some(d) => text_member(d, "email"),
        None => None,
    };
    match (user, email) {
        (Some(u), Some(e)) => {
            let mut s = u;
            s.append(" (");
            s.append(e.as_str());
            s.append(")");
            s
        },
        (Some(u), None) => u,
        (None, Some(e)) => e,
        (None, None) => String::new(),
    }
}

/// The identity a probe found: the one of its `users/me` document, or empty without one.
pub open spec fn probed_identity(probe: Option<Result<serde_json::Value, Error>>) -> Seq<char> {
    match probe {
        Some(Ok(doc)) => identity_view(json::json_view(doc)),
        _ => Seq::empty(),
    }
}

/// The stored accounts after adding `entry`: in place of the stored account at `slot`
/// when there is one there, else at the end.
pub open spec fn with_account(
    accounts: Seq<AccountView>,
    slot: Option<usize>,
    entry: AccountView,
) -> Seq<AccountView> {
    match slot {
        Some(i) => if i < accounts.len() {
            accounts.update(i as int, entry)
        } else {
            accounts.push(entry)
        },
        None => accounts.push(entry),
    }
}

/// Adding an account under a new name and then removing it (it is the last one) gives
/// back the stored accounts; replacing one in place keeps their number and every other
/// account where it was.
pub proof fn lemma_add_then_remove(accounts: Seq<AccountView>, entry: AccountView, i: usize)
    ensures
        with_account(accounts, None, entry).remove(accounts.len() as int) == accounts,
        i < accounts.len() ==> with_account(accounts, Some(i), entry).len() == accounts.len(),
        i < accounts.len() ==> forall|j: int|
            0 <= j < accounts.len() && j != i ==> #[trigger] with_account(
                accounts,
                Some(i),
                entry,
            )[j] == accounts[j],
{
    assert(accounts.push(entry).remove(accounts.len() as int) =~= accounts);
}

/// An added account: the stored accounts afterwards, the key to store under `key_name`,
/// and the report.
pub struct AddOutcome {
    pub accounts: Vec<StoredAccount>,
    pub key_name: String,
    pub key: String,
    pub report: serde_json::Value,
}

/// Completes adding an account from its plan, the key it is added with, and the result of
/// probing `users/me` with that key (`None` when the plan asks for no verification). A
/// failed probe refuses the key with the probe's error, so nothing is stored; otherwise the
/// account, with the identity the probe found and the time `added_at`, takes the place of
/// the stored account it replaces or is appended, and the key is to be stored under its
/// name.
pub fn add_account(
    plan: AddPlan,
    key: String,
    probe: Option<Result<serde_json::Value, Error>>,
    accounts: Vec<StoredAccount>,
    added_at: String,
    secret_store: &str,
    config_dir: &str,
) -> (res: Result<AddOutcome, Error>)
    ensures
        match probe {
            Some(Err(e)) => res matches Err(r) && r@ == e@,
            _ => res matches Ok(o) && {
                let entry = AccountView {
                    name: plan.name@,
                    identity: probed_identity(probe),
                    added_at: added_at@,
                };
                &&& o.key_name@ == plan.name@
                &&& o.key@ == key@
                &&& accounts_view(o.accounts@) == with_account(
                    accounts_view(accounts@),
                    plan.slot,
                    entry,
                )
                &&& json::json_view(o.report) == JsonView::Object(
                    add_report_members(
                        plan.name@,
                        plan.slot is Some,
                        probed_identity(probe),
                        probe is Some,
                        secret_store@,
                        config_dir@,
                    ),
                )
            },
        },
{
    let verified = probe.is_some();
    let identity = match probe {
        Some(Err(e)) => return Err(e),
        Some(Ok(doc)) => identity_of(&doc),
        None => String::new(),
    };
    let report = add_report(
        plan.name.as_str(),
        plan.slot.is_some(),
        identity.as_str(),
        verified,
        secret_store,
        config_dir,
    );
    let key_name = plan.name.clone();
    let entry = StoredAccount { name: plan.name, identity, added_at };
    let ghost entry_view = entry@;
    let mut accounts = accounts;
    let ghost before = accounts_view(accounts@);
    match plan.slot {
        Some(i) => {
            if i < accounts.len() {
                accounts.set(i, entry);
                assert(accounts_view(accounts@) =~= before.update(i as int, entry_view));
            } else {
                accounts.push(entry);
                assert(accounts_view(accounts@) =~= before.push(entry_view));
            }
        },
        None => {
            accounts.push(entry);
            assert(accounts_view(accounts@) =~= before.push(entry_view));
        },
    }
    Ok(AddOutcome { accounts, key_name, key, report })
}

// ---------------------------------------------------------------------------------------
// list
// ---------------------------------------------------------------------------------------

/// The status of a listed account: `stored` without `--check`; otherwise `missing_key` when
/// the keystore has no key, `valid` when the probe succeeded, `rejected` when the API refused
/// the key, and `unreachable` on any other failure.
pub open spec fn key_status_text(check: bool, probe: Option<Result<serde_json::Value, Error>>) -> Seq<
    char,
> {
    if !check {
        "stored"@
    } else {
        match probe {
            None => "missing_key"@,
            Some(Ok(_)) => "valid"@,
            Some(Err(e)) => if e.code == ErrorCode::AuthRequired {
                "rejected"@
            } else {
                "unreachable"@
            },
        }
    }
}

/// Without `--check` every listed account reads `stored`, whatever its key; with it no
/// account does, its status coming from its key and the probe.
pub proof fn lemma_stored_only_unchecked(probe: Option<Result<serde_json::Value, Error>>)
    ensures
        key_status_text(false, probe) == "stored"@,
        key_status_text(true, probe) != "stored"@,
        key_status_text(true, probe) == "missing_key"@ <==> probe is None,
        key_status_text(true, probe) == "valid"@ <==> (probe matches Some(r) && r is Ok),
{
    reveal_strlit("stored");
    reveal_strlit("missing_key");
    reveal_strlit("valid");
    reveal_strlit("rejected");
    reveal_strlit("unreachable");
    assert("stored"@.len() != "missing_key"@.len());
    assert("stored"@.len() != "valid"@.len());
    assert("stored"@.len() != "rejected"@.len());
    assert("stored"@.len() != "unreachable"@.len());
    assert("missing_key"@[0] != "unreachable"@[0]);
    assert("missing_key"@.len() != "valid"@.len());
    assert("missing_key"@.len() != "rejected"@.len());
    assert("valid"@.len() != "rejected"@.len());
    assert("valid"@.len() != "unreachable"@.len());
}

/// The status of a listed account, given whether keys are checked and the result of probing
/// the stored key (`None` when there is no key).
pub fn key_status(check: bool, probe: &Option<Result<serde_json::Value, Error>>) -> (res:
    &'static str)
    ensures
        res@ == key_status_text(check, *probe),
{
    if !check {
        "stored"
    } else {
        match probe {
            None => "missing_key",
            Some(Ok(_)) => "valid",
            Some(Err(e)) => if e.code == ErrorCode::AuthRequired {
                "rejected"
            } else {
                "unreachable"
            },
        }
    }
}

/// One listed account.
pub struct AccountRow {
    pub name: String,
    pub identity: String,
    pub added_at: String,
    pub status: String,
}

/// The members of a listed account.
pub open spec fn row_members(row: AccountRow, secret_store: Seq<char>) -> Map<Seq<char>, JsonView> {
    no_members().insert("name"@, JsonView::Str(row.name@)).insert(
        "identity"@,
        JsonView::Str(row.identity@),
    ).insert("addedAt"@, JsonView::Str(row.added_at@)).insert(
        "secretStore"@,
        JsonView::Str(secret_store),
    ).insert("status"@, JsonView::Str(row.status@))
}

/// The account list: one object per account, in the order given.
pub open spec fn list_view(rows: Seq<AccountRow>, secret_store: Seq<char>) -> JsonView {
    JsonView::Array(rows.map_values(|r: AccountRow| JsonView::Object(row_members(r, secret_store))))
}

fn row_value(row: &AccountRow, secret_store: &str) -> (res: serde_json::Value)
    ensures
        json::json_view(res) == JsonView::Object(row_members(*row, secret_store@)),
{
    let mut m = json::new_map();
    json::insert(&mut m, owned("name"), json::string(row.name.clone()));
    json::insert(&mut m, owned("identity"), json::string(row.identity.clone()));
    json::insert(&mut m, owned("addedAt"), json::string(row.added_at.clone()));
    json::insert(&mut m, owned("secretStore"), json::string(owned(secret_store)));
    json::insert(&mut m, owned("status"), json::string(row.status.clone()));
    json::object(m)
}

/// The rows are in order of name (as `String`s order).
pub open spec fn sorted_by_name(rows: Seq<AccountRow>) -> bool {
    forall|i: int, j: int|
        0 <= i < j < rows.len() ==> !name_before(#[trigger] rows[j].name@, #[trigger] rows[i].name@)
}

proof fn lemma_empty_multiset(s: Seq<AccountRow>)
    requires
        s.len() == 0,
    ensures
        s.to_multiset() =~= vstd::multiset::Multiset::empty(),
{
    broadcast use vstd::seq_lib::group_to_multiset_ensures;
    broadcast use vstd::multiset::group_multiset_axioms;

    assert forall|a: AccountRow| s.to_multiset().count(a) == 0 by {
        assert(!s.contains(a));
    }
}

/// The rows sorted by name: the same rows, in order of name.
pub fn sort_by_name(rows: Vec<AccountRow>) -> (res: Vec<AccountRow>)
    ensures
        sorted_by_name(res@),
        res@.to_multiset() == rows@.to_multiset(),
{
    broadcast use vstd::multiset::group_multiset_axioms;

    let ghost all = rows@;
    let mut rest = rows;
    let mut out: Vec<AccountRow> = Vec::new();
    proof {
        lemma_empty_multiset(out@);
    }
    while rest.len() > 0
        invariant
            sorted_by_name(out@),
            out@.to_multiset().add(rest@.to_multiset()) == all.to_multiset(),
        decreases rest.len(),
    {
        let ghost r0 = rest@;
        let x = rest.pop().unwrap();
        proof {
            assert(r0 =~= rest@.push(x));
            vstd::seq_lib::to_multiset_build(rest@, x);
        }
        let mut p: usize = 0;
        while p < out.len() && !before(x.name.as_str(), out[p].name.as_str())
            invariant
                p <= out.len(),
                forall|k: int| 0 <= k < p ==> !name_before(x.name@, #[trigger] out@[k].name@),
            decreases out.len() - p,
        {
            p = p + 1;
        }
        let ghost old_out = out@;
        out.insert(p, x);
        proof {
            vstd::seq_lib::to_multiset_insert(old_out, p as int, x);
            assert(out@.to_multiset().add(rest@.to_multiset()) =~= all.to_multiset());
            assert forall|i: int, j: int| 0 <= i < j < out@.len() implies !name_before(
                #[trigger] out@[j].name@,
                #[trigger] out@[i].name@,
            ) by {
                if j < p {
                    assert(out@[i] == old_out[i] && out@[j] == old_out[j]);
                } else if j == p {
                    assert(out@[i] == old_out[i]);
                } else if i < p {
                    assert(out@[i] == old_out[i] && out@[j] == old_out[j - 1]);
                } else if i == p {
                    let k = j - 1;
                    assert(out@[j] == old_out[k]);
                    assert(name_before(x.name@, old_out[p as int].name@));
                    if name_before(old_out[k].name@, x.name@) {
                        lemma_before_transitive(old_out[k].name@, x.name@, old_out[p as int].name@);
                        if k == p {
                            lemma_before_irreflexive(old_out[k].name@);
                        }
                    }
                } else {
                    assert(out@[i] == old_out[i - 1] && out@[j] == old_out[j - 1]);
                }
            }
        }
    }
    assert(rest@ =~= Seq::<AccountRow>::empty());
    proof {
        lemma_empty_multiset(rest@);
    }
    assert(out@.to_multiset() =~= all.to_multiset());
    out
}

/// The account list report: one object per account, in order of name (an empty array when
/// there are no accounts).
pub fn list(rows: Vec<AccountRow>, secret_store: &str) -> (res: serde_json::Value)
    ensures
        exists|s: Seq<AccountRow>|
            #![trigger list_view(s, secret_store@)]
            s.to_multiset() == rows@.to_multiset() && sorted_by_name(s) && json::json_view(res)
                == list_view(s, secret_store@),
{
    let sorted = sort_by_name(rows);
    let mut items: Vec<serde_json::Value> = Vec::new();
    let mut i: usize = 0;
    while i < sorted.len()
        invariant
            i <= sorted.len(),
            items@.len() == i,
            forall|j: int|
                0 <= j < i ==> json::json_view(#[trigger] items@[j]) == JsonView::Object(
                    row_members(sorted@[j], secret_store@),
                ),
        decreases sorted.len() - i,
    {
        items.push(row_value(&sorted[i], secret_store));
        i = i + 1;
    }
    let ghost expected = sorted@.map_values(
        |r: AccountRow| JsonView::Object(row_members(r, secret_store@)),
    );
    assert(items@.map_values(|v: serde_json::Value| json::json_view(v)) =~= expected);
    let res = json::array(items);
    assert(json::json_view(res) == list_view(sorted@, secret_store@));
    res
}

// ---------------------------------------------------------------------------------------
// test
// ---------------------------------------------------------------------------------------

/// The error for a stored account whose key is missing or blank.
pub open spec fn no_key_view(stored_name: Seq<char>) -> ErrorView {
    ErrorView::plain(
        ErrorCode::AuthRequired,
        "Account '"@ + stored_name + "' has no stored API key."@,
    ).with_detail("The config entry exists but the keystore has nothing under it."@).with_fix(
        "tiktok accounts add "@ + stored_name + " --api-key <key>"@,
    )
}

/// The stored account to test: the one `name` refers to (see `lookup`), or the
/// `no_account` error.
pub fn test(name: &str, accounts: &Vec<StoredAccount>) -> (res: Result<usize, Error>)
    ensures
        match res {
            Ok(i) => found_at(names_of(accounts@), name@, i as int),
            Err(e) => (forall|j: int|
                0 <= j < accounts.len() ==> !same_ignoring_ascii_case(
                    #[trigger] names_of(accounts@)[j],
                    name@,
                )) && e@ == no_account_view(name@, described(names_of(accounts@))),
        },
{
    lookup(name, accounts)
}

/// The key a stored account is used with: the stored key, unless it is missing or blank.
pub fn stored_key(stored_name: &str, key: Option<String>) -> (res: Result<String, Error>)
    ensures
        match key {
            Some(k) => if trim(k@).len() > 0 {
                res matches Ok(r) && r@ == k@
            } else {
                res matches Err(e) && e@ == no_key_view(stored_name@)
            },
            None => res matches Err(e) && e@ == no_key_view(stored_name@),
        },
{
    match key {
        Some(k) => {
            let t = trimmed(k.as_str());
            if !t.as_str().is_empty() {
                return Ok(k);
            }
        },
        None => {},
    }
    let mut message = owned("Account '");
    message.append(stored_name);
    message.append("' has no stored API key.");
    let mut fix = owned("tiktok accounts add ");
    fix.append(stored_name);
    fix.append(" --api-key <key>");
    Err(
        Error::new(ErrorCode::AuthRequired, message).detail(
            owned("The config entry exists but the keystore has nothing under it."),
        ).fix(fix),
    )
}

/// The report of a tested account: the probed identity, or the stored one when the probe
/// found none.
pub open spec fn test_report_members(
    stored_name: Seq<char>,
    stored_identity: Seq<char>,
    probed_identity: Seq<char>,
    secret_store: Seq<char>,
) -> Map<Seq<char>, JsonView> {
    no_members().insert("status"@, JsonView::Str("valid"@)).insert(
        "name"@,
        JsonView::Str(stored_name),
    ).insert(
        "identity"@,
        JsonView::Str(
            if probed_identity.len() == 0 {
                stored_identity
            } else {
                probed_identity
            },
        ),
    ).insert("secretStore"@, JsonView::Str(secret_store))
}

/// What the report of a tested account says: `valid`, the stored name, the identity the probe
/// found or, when it found none, the one stored with the account, and where keys are kept;
/// nothing else.
pub proof fn lemma_test_report_says(
    stored_name: Seq<char>,
    stored_identity: Seq<char>,
    probed_identity: Seq<char>,
    secret_store: Seq<char>,
)
    ensures
        ({
            let m = test_report_members(stored_name, stored_identity, probed_identity, secret_store);
            &&& m.contains_key("status"@) && m["status"@] == JsonView::Str("valid"@)
            &&& m.contains_key("name"@) && m["name"@] == JsonView::Str(stored_name)
            &&& m.contains_key("identity"@)
            &&& probed_identity.len() > 0 ==> m["identity"@] == JsonView::Str(probed_identity)
            &&& probed_identity.len() == 0 ==> m["identity"@] == JsonView::Str(stored_identity)
            &&& m.contains_key("secretStore"@) && m["secretStore"@] == JsonView::Str(secret_store)
            &&& forall|k: Seq<char>|
                m.contains_key(k) ==> k == "status"@ || k == "name"@ || k == "identity"@ || k
                    == "secretStore"@
        }),
{
    reveal_strlit("status");
    reveal_strlit("name");
    reveal_strlit("identity");
    reveal_strlit("secretStore");
    assert("status"@.len() != "name"@.len());
    assert("status"@.len() != "identity"@.len());
    assert("status"@.len() != "secretStore"@.len());
    assert("name"@.len() != "identity"@.len());
    assert("name"@.len() != "secretStore"@.len());
    assert("identity"@.len() != "secretStore"@.len());
}

/// The report of testing a stored account, from the result of probing `users/me` with its
/// key: a failed probe (a rejected key, or an API that cannot be reached) is the error;
/// otherwise the account is valid, with the probed identity, or the stored one when the probe
/// found none.
pub fn test_report(
    account: &StoredAccount,
    probe: Result<serde_json::Value, Error>,
    secret_store: &str,
) -> (res: Result<serde_json::Value, Error>)
    ensures
        match probe {
            Err(e) => res matches Err(r) && r@ == e@,
            Ok(doc) => res matches Ok(v) && json::json_view(v) == JsonView::Object(
                test_report_members(
                    account.name@,
                    account.identity@,
                    identity_view(json::json_view(doc)),
                    secret_store@,
                ),
            ),
        },
{
    let probed = match probe {
        Err(e) => return Err(e),
        Ok(doc) => identity_of(&doc),
    };
    let identity = if probed.as_str().is_empty() {
        account.identity.clone()
    } else {
        probed
    };
    let mut m = json::new_map();
    json::insert(&mut m, owned("status"), json::string(owned("valid")));
    json::insert(&mut m, owned("name"), json::string(account.name.clone()));
    json::insert(&mut m, owned("identity"), json::string(identity));
    json::insert(&mut m, owned("secretStore"), json::string(owned(secret_store)));
    Ok(json::object(m))
}

// ---------------------------------------------------------------------------------------
// remove
// ---------------------------------------------------------------------------------------

/// A reply that confirms: `y` or `yes` in any case, around whitespace.
pub open spec fn confirms(reply: Seq<char>) -> bool {
    same_ignoring_ascii_case(trim(reply), "y"@) || same_ignoring_ascii_case(trim(reply), "yes"@)
}

/// Which replies confirm a removal: surrounding whitespace never matters; `y`, `Y`, `yes`,
/// `Yes` and `YES` confirm; an empty reply (the default `N`) does not, and a confirming reply
/// is one or three characters long and starts with `y` in either case.
pub proof fn lemma_confirming_replies(r: Seq<char>)
    ensures
        confirms(r) == confirms(trim(r)),
        trim(r) == "y"@ || trim(r) == "Y"@ || trim(r) == "yes"@ || trim(r) == "Yes"@ || trim(r)
            == "YES"@ ==> confirms(r),
        trim(r).len() == 0 ==> !confirms(r),
        confirms(r) ==> (trim(r).len() == 1 || trim(r).len() == 3) && (trim(r)[0] == 'y'
            || trim(r)[0] == 'Y'),
{
    reveal_strlit("y");
    reveal_strlit("Y");
    reveal_strlit("yes");
    reveal_strlit("Yes");
    reveal_strlit("YES");
    crate::text::lemma_trim_idempotent(r);
    let t = trim(r);
    if confirms(r) {
        assert(ascii_lower(t[0]) == ascii_lower('y'));
        vstd::utf8::char_u32_cast(t[0], t[0] as u32);
        vstd::utf8::char_u32_cast('y', 'y' as u32);
        vstd::utf8::char_u32_cast('Y', 'Y' as u32);
    }
}

/// The question asked before removing an account.
pub fn removal_question(name: &str) -> (res: String)
    ensures
        res@ == "Remove account '"@ + name@ + "' and its stored API key? [y/N]: "@,
{
    let mut q = owned("Remove account '");
    q.append(name);
    q.append("' and its stored API key? [y/N]: ");
    q
}

/// Whether removal asks for confirmation: unless `--yes` is given, and only on a terminal.
pub fn asks_confirmation(yes: bool, terminal: bool) -> (res: bool)
    ensures
        res == (!yes && terminal),
{
    !yes && terminal
}

/// Whether removal goes on, given the reply to the removal question (`None` when none was
/// asked): any reply but `y` or `yes` (ignoring case and surrounding whitespace) aborts.
/// (Only `Y`, `E` and `S` lower-case to `y`, `e` and `s`, so ASCII case folding decides as
/// full Unicode lower-casing does.)
pub fn confirm_removal(reply: Option<&str>) -> (res: Result<(), Error>)
    ensures
        res is Ok <==> match reply {
            Some(r) => confirms(r@),
            None => true,
        },
        res matches Err(e) ==> e@ == ErrorView::plain(ErrorCode::InvalidInput, "Aborted."@),
{
    let reply = match reply {
        Some(r) => r,
        None => return Ok(()),
    };
    let t = trimmed(reply);
    if eq_ignore_ascii_case(t.as_str(), "y") || eq_ignore_ascii_case(t.as_str(), "yes") {
        Ok(())
    } else {
        Err(Error::invalid(owned("Aborted.")))
    }
}

/// A removed account: the stored accounts afterwards, the name whose key is to be deleted,
/// and the report.
pub struct RemoveOutcome {
    pub accounts: Vec<StoredAccount>,
    pub key_name: String,
    pub report: serde_json::Value,
}

/// Removes the stored account at `index` (found by `lookup`): the others stay, in their
/// order, and its key is to be deleted.
pub fn remove_account(accounts: Vec<StoredAccount>, index: usize) -> (res: RemoveOutcome)
    requires
        index < accounts.len(),
    ensures
        accounts_view(res.accounts@) == accounts_view(accounts@).remove(index as int),
        res.key_name@ == accounts@[index as int].name@,
        json::json_view(res.report) == JsonView::Object(
            remove_report_members(accounts@[index as int].name@),
        ),
{
    let mut accounts = accounts;
    let ghost before = accounts_view(accounts@);
    let removed = accounts.remove(index);
    assert(accounts_view(accounts@) =~= before.remove(index as int));
    let report = remove_report(removed.name.as_str());
    RemoveOutcome { accounts, key_name: removed.name, report }
}

/// The report of a removed account.
pub open spec fn remove_report_members(name: Seq<char>) -> Map<Seq<char>, JsonView> {
    no_members().insert("status"@, JsonView::Str("removed"@)).insert(
        "name"@,
        JsonView::Str(name),
    ).insert(
        "note"@,
        JsonView::Str(
            "Key deleted from this machine. It has not been revoked on the Apify platform."@,
        ),
    )
}

/// The report of a removed account.
pub fn remove_report(name: &str) -> (res: serde_json::Value)
    ensures
        json::json_view(res) == JsonView::Object(remove_report_members(name@)),
{
    let mut m = json::new_map();
    json::insert(&mut m, owned("status"), json::string(owned("removed")));
    json::insert(&mut m, owned("name"), json::string(owned(name)));
    json::insert(
        &mut m,
        owned("note"),
        json::string(
            owned("Key deleted from this machine. It has not been revoked on the Apify platform."),
        ),
    );
    json::object(m)
}

} // verus!
