use serde_json::Value;
use tiktok::account::describe;
use tiktok::cli::AccountsCommand;
use tiktok::client::status_error;
use tiktok::commands::accounts::{
    add, add_account, asks_confirmation, confirm_removal, identity_of, key_prompt, key_status, list,
    lookup, no_account, prompt_failure, prompt_key, read_stdin_key, remove_account, removal_question,
    run, sort_by_name, stdin_failure, stored_key, test_report, AccountRow, AccountsTask, StoredAccount,
};
use tiktok::error::ErrorCode;

fn j(text: &str) -> Value {
    serde_json::from_str(text).unwrap()
}

fn stored(name: &str, identity: &str) -> StoredAccount {
    StoredAccount { name: name.to_string(), identity: identity.to_string(), added_at: "1700000000".to_string() }
}

fn rows_of(accounts: &[StoredAccount]) -> Vec<AccountRow> {
    accounts
        .iter()
        .map(|a| AccountRow {
            name: a.name.clone(),
            identity: a.identity.clone(),
            added_at: a.added_at.clone(),
            status: key_status(false, &None).to_string(),
        })
        .collect()
}

#[test]
fn accounts_add_list_test_remove() {
    let me = j(r#"{"data": {"username": "spacecorps", "email": "space@example.com"}}"#);
    let config: Vec<StoredAccount> = Vec::new();

    // 1. Add
    let plan = add("personal", None, Some("token_pers".to_string()), &config, false, false).unwrap();
    assert!(plan.verify);
    let key = plan.key.clone().unwrap();
    let done = add_account(plan, key, Some(Ok(me.clone())), config, "1700000000".to_string(), "plaintext", "/tmp/cfg")
        .unwrap();
    assert_eq!(done.key_name, "personal");
    assert_eq!(done.key, "token_pers");
    let out = done.report;
    assert_eq!(out["status"], "added");
    assert_eq!(out["name"], "personal");
    assert_eq!(out["identity"], "spacecorps (space@example.com)");
    let config = done.accounts;

    // 2. List
    let listed = list(rows_of(&config), "plaintext");
    assert_eq!(listed.as_array().unwrap().len(), 1);
    assert_eq!(listed[0]["name"], "personal");

    // 3. Test
    let i = tiktok::commands::accounts::test("personal", &config).unwrap();
    let key = stored_key(&config[i].name, Some("token_pers".to_string())).unwrap();
    assert_eq!(key, "token_pers");
    let test_res = test_report(&config[i], Ok(me), "plaintext").unwrap();
    assert_eq!(test_res["status"], "valid");

    // 4. Remove (with --yes, nothing is asked)
    let i = lookup("personal", &config).unwrap();
    assert!(!asks_confirmation(true, true));
    confirm_removal(None).unwrap();
    let done = remove_account(config, i);
    assert_eq!(done.report["status"], "removed");
    assert_eq!(done.key_name, "personal");

    // 5. List is now empty
    let list2 = list(rows_of(&done.accounts), "plaintext");
    assert_eq!(list2.as_array().unwrap().len(), 0);
}

#[test]
fn subcommands_become_tasks() {
    let t = run(AccountsCommand::Add {
        name: "w".to_string(),
        api_key: Some("k".to_string()),
        api_key_stdin: true,
        force: true,
        skip_verification: false,
    });
    match t {
        AccountsTask::Add { name, api_key, key_from_stdin, force, skip_verification } => {
            assert_eq!(name, "w");
            assert_eq!(api_key, None);
            assert!(key_from_stdin && force && !skip_verification);
        }
        _ => panic!("expected add"),
    }
    assert!(matches!(run(AccountsCommand::List { check: true }), AccountsTask::List { check: true }));
    assert!(matches!(run(AccountsCommand::Remove { name: "x".to_string(), yes: false }), AccountsTask::Remove { yes: false, .. }));
}

#[test]
fn adding_under_a_taken_name() {
    let config = vec![stored("Work", "old"), stored("home", "h")];
    let err = add("work", None, None, &config, false, false).err().unwrap();
    assert_eq!(err.code, ErrorCode::InvalidInput);
    assert_eq!(err.message, "An account named 'Work' already exists.");
    assert_eq!(
        err.fix.as_deref(),
        Some("Pick a different name, or replace its key: tiktok accounts add Work --api-key <key> --force")
    );
    let plan = add(" work ", None, Some("   ".to_string()), &config, true, true).unwrap();
    assert_eq!(plan.name, "Work");
    assert_eq!(plan.slot, Some(0));
    assert_eq!(plan.key, None);
    assert!(!plan.verify);
    let done = add_account(plan, "k2".to_string(), None, config, "1".to_string(), "keyring", "/c").unwrap();
    assert_eq!(done.report["status"], "replaced");
    assert_eq!(done.report["verified"], false);
    assert_eq!(done.report["identity"], "");
    assert_eq!(done.report["nextStep"], "tiktok profile nike --account Work");
    // Replaced in place; the other account is kept.
    assert_eq!(done.accounts.len(), 2);
    assert_eq!(done.accounts[0].name, "Work");
    assert_eq!(done.accounts[0].added_at, "1");
    assert_eq!(done.accounts[1].name, "home");
}

#[test]
fn adding_new_accounts_appends() {
    let config = vec![stored("b", "")];
    let plan = add("a", None, Some("k".to_string()), &config, false, false).unwrap();
    assert_eq!(plan.slot, None);
    let done = add_account(plan, "k".to_string(), Some(Ok(j(r#"{"data":{"username":"u"}}"#))), config, "2".to_string(), "s", "d")
        .unwrap();
    assert_eq!(done.accounts.len(), 2);
    assert_eq!(done.accounts[1].name, "a");
    assert_eq!(done.accounts[1].identity, "u");
    assert_eq!(done.report["verified"], true);
}

#[test]
fn a_rejected_key_is_not_added() {
    let config = vec![stored("b", "")];
    let plan = add("a", None, Some("bad".to_string()), &config, false, false).unwrap();
    let err = add_account(plan, "bad".to_string(), Some(Err(status_error(401, ""))), config, "2".to_string(), "s", "d")
        .err()
        .unwrap();
    assert_eq!(err.code, ErrorCode::AuthRequired);
}

#[test]
fn add_refusals_come_in_order() {
    let config: Vec<StoredAccount> = Vec::new();
    let e = add("  ", Some("\n"), None, &config, false, false).err().unwrap();
    assert_eq!(e.message, "--api-key-stdin was given but stdin was empty.");
    let e = add(" \t ", Some("key\n"), None, &config, false, false).err().unwrap();
    assert_eq!(e.message, "An account name is required.");
    let plan = add("x", Some(" key \n"), Some("ignored".to_string()), &config, false, false).unwrap();
    assert_eq!(plan.key.as_deref(), Some("key"));
}

#[test]
fn account_keys_and_prompts() {
    assert_eq!(read_stdin_key(" abc\n").unwrap(), "abc");
    assert_eq!(read_stdin_key("\n").err().unwrap().message, "--api-key-stdin was given but stdin was empty.");
    assert_eq!(prompt_key("w", Some("  xyz ")).unwrap(), "xyz");
    assert_eq!(prompt_key("w", Some("")).err().unwrap().message, "API token cannot be empty.");
    let e = prompt_key("work", None).err().unwrap();
    assert_eq!(e.message, "No API key given and no terminal to prompt on.");
    assert_eq!(e.fix.as_deref(), Some("pbpaste | tiktok accounts add work --api-key-stdin"));
    assert_eq!(key_prompt("work"), "Enter Apify API token for 'work': ");
    let e = prompt_failure("eof".to_string());
    assert_eq!(e.code, ErrorCode::Error);
    assert_eq!(e.detail.as_deref(), Some("eof"));
    assert_eq!(stdin_failure("broken pipe").message, "Could not read stdin: broken pipe");
}

#[test]
fn key_statuses() {
    assert_eq!(key_status(false, &None), "stored");
    assert_eq!(key_status(true, &None), "missing_key");
    assert_eq!(key_status(true, &Some(Ok(j("{}")))), "valid");
    assert_eq!(key_status(true, &Some(Err(status_error(401, "")))), "rejected");
    assert_eq!(key_status(true, &Some(Err(status_error(500, "")))), "unreachable");
}

#[test]
fn testing_accounts() {
    let config = vec![stored("work", "stored id")];
    let e = stored_key("work", Some("  ".to_string())).err().unwrap();
    assert_eq!(e.code, ErrorCode::AuthRequired);
    assert_eq!(e.message, "Account 'work' has no stored API key.");
    assert_eq!(e.detail.as_deref(), Some("The config entry exists but the keystore has nothing under it."));
    assert_eq!(e.fix.as_deref(), Some("tiktok accounts add work --api-key <key>"));
    assert!(stored_key("work", None).is_err());
    assert_eq!(stored_key("work", Some(" k ".to_string())).unwrap(), " k ");
    let r = test_report(&config[0], Ok(j("{}")), "plaintext").unwrap();
    assert_eq!(r["identity"], "stored id");
    let r = test_report(&config[0], Ok(j(r#"{"data":{"username":"probed"}}"#)), "plaintext").unwrap();
    assert_eq!(r["identity"], "probed");
    let e = test_report(&config[0], Err(status_error(401, "")), "plaintext").err().unwrap();
    assert_eq!(e.code, ErrorCode::AuthRequired);
    let e = tiktok::commands::accounts::test("ghost", &vec![stored("a", ""), stored("b", "")]).err().unwrap();
    assert_eq!(e.code, ErrorCode::NoAccount);
    assert_eq!(e.exit_code(), 7);
    assert_eq!(e.message, "No account named 'ghost'.");
    assert_eq!(e.detail.as_deref(), Some("Configured accounts: a, b"));
    assert_eq!(e.fix.as_deref(), Some("tiktok accounts list"));
    let e2 = no_account("ghost", describe(&vec!["a".to_string(), "b".to_string()]));
    assert_eq!(e2.message, e.message);
    assert_eq!(describe(&Vec::new()), "No accounts are configured.");
    assert_eq!(lookup("WORK", &config).unwrap(), 0);
}

#[test]
fn identities() {
    assert_eq!(identity_of(&j(r#"{"data":{"username":"tester"}}"#)), "tester");
    assert_eq!(identity_of(&j(r#"{"data":{"email":"a@b"}}"#)), "a@b");
    assert_eq!(identity_of(&j(r#"{"data":{"username":5}}"#)), "");
    assert_eq!(identity_of(&j(r#"[]"#)), "");
}

#[test]
fn removal_confirmation() {
    assert!(asks_confirmation(false, true));
    assert!(!asks_confirmation(false, false));
    assert!(confirm_removal(Some("y\n")).is_ok());
    assert!(confirm_removal(Some(" YES ")).is_ok());
    assert!(confirm_removal(Some("Yes")).is_ok());
    let e = confirm_removal(Some("no")).err().unwrap();
    assert_eq!(e.message, "Aborted.");
    assert_eq!(e.code, ErrorCode::InvalidInput);
    assert!(confirm_removal(Some("")).is_err());
    assert!(confirm_removal(Some("yess")).is_err());
    assert_eq!(removal_question("work"), "Remove account 'work' and its stored API key? [y/N]: ");
    let done = remove_account(vec![stored("a", ""), stored("b", ""), stored("c", "")], 1);
    let names: Vec<&str> = done.accounts.iter().map(|a| a.name.as_str()).collect();
    assert_eq!(names, vec!["a", "c"]);
    assert_eq!(done.key_name, "b");
    assert_eq!(done.report["note"], "Key deleted from this machine. It has not been revoked on the Apify platform.");
}

#[test]
fn listed_rows_are_sorted() {
    let v = list(rows_of(&[stored("b", "ib"), stored("a", "ia")]), "keyring");
    assert_eq!(
        v,
        j(r#"[{"name":"a","identity":"ia","addedAt":"1700000000","secretStore":"keyring","status":"stored"},
              {"name":"b","identity":"ib","addedAt":"1700000000","secretStore":"keyring","status":"stored"}]"#)
    );
    let sorted = sort_by_name(rows_of(&[stored("zz", ""), stored("Z", ""), stored("a", ""), stored("ab", ""), stored("", "")]));
    let names: Vec<&str> = sorted.iter().map(|r| r.name.as_str()).collect();
    assert_eq!(names, vec!["", "Z", "a", "ab", "zz"]);
}
