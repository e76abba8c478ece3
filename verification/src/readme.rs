//! The agent operating manual: Markdown by default, so it can be pasted into a system
//! prompt, and the same rules as data with `--json`.

use vstd::prelude::*;
use crate::json;
use crate::json::{no_members, string_array, JsonView};
use crate::error::ErrorCode;
use crate::text::{decimal, owned};

verus! {

/// The Apify / TikTok scraper API version.
pub const API_VERSION: &'static str = "2.0.0";

/// The manual in Markdown.
pub const README: &'static str = r#"# tiktok - agent operating manual

A native CLI for scraping TikTok videos, user profiles, hashtags, and search results via Apify.
Results are YAML on stdout by default, errors are YAML on stderr, and `--json` switches both to JSON.
Prompts and warnings go to stderr, so stdout is always clean and safe to parse.

## Authentication & Accounts

Every command that accesses TikTok/Apify accepts either `--account <name>` (short `-a`)
using credentials stored securely in your OS keystore, or `--api-key <key>` (or `APIFY_TOKEN` / `TIKTOK_API_KEY`).

### Managing accounts

    tiktok login [<name>] [--api-key <key>]  # prompts or accepts API token
    tiktok accounts add <name> --api-key <key> [--force]
    printf %s "$TOKEN" | tiktok accounts add <name> --api-key-stdin
    tiktok accounts list [--check]
    tiktok accounts test <name>
    tiktok accounts remove <name> --yes

`add` validates the token against the Apify API (`users/me`) before storing it in your operating system
keystore (macOS Keychain, Windows DPAPI, or Linux Secret Service). Non-secret metadata is stored
in `config.yaml`.

## Core Commands

### 1. Profile — Scrape videos from user profiles

    tiktok profile <USERNAMES> [OPTIONS]

Arguments:
    <USERNAMES>                Comma-separated TikTok usernames or URLs (e.g. nike,adidas or https://www.tiktok.com/@nike)

Options:
    --limit <N>                Number of videos per profile (default: 1)
    --sort <ORDER>             Sort order: latest, popular, oldest (default: latest)
    --since <DATE>             Only videos published after this date (e.g. 2025-01-01)
    --until <DATE>             Only videos published before this date
    --sections <SECTIONS>      Sections to scrape: videos, reposts (default: videos)
    --exclude-pinned           Exclude pinned posts
    --comments <N>             Max comments per post

Examples:
    tiktok profile nike --limit 10
    tiktok profile https://www.tiktok.com/@nike --sort popular --json

### 2. Hashtag — Scrape videos by hashtag

    tiktok hashtag <HASHTAGS> [OPTIONS]

Arguments:
    <HASHTAGS>                 Comma-separated hashtags (e.g. fitness,workout or #coding)

Options:
    --limit <N>                Number of videos per hashtag (default: 1)
    --comments <N>             Max comments per post

Examples:
    tiktok hashtag "coding" --limit 5
    tiktok hashtag "fitness,workout" --limit 20 --json

### 3. Search — Search TikTok for videos or users

    tiktok search <QUERIES> [OPTIONS]

Arguments:
    <QUERIES>                  Comma-separated search queries

Options:
    --limit <N>                Number of results per query (default: 1)
    --section <SECTION>        Search section: top, video, user (default: top)
    --users                    Shorthand to search users (equivalent to --section user)
    --profiles <N>             Number of profiles per query when searching users (default: 10)
    --comments <N>             Max comments per post

Examples:
    tiktok search "machine learning" --limit 10
    tiktok search "tech" --users --profiles 5 --json

### 4. Video — Scrape specific TikTok videos by URL

    tiktok video <URLS> [OPTIONS]

Arguments:
    <URLS>                     Comma-separated TikTok video URLs

Options:
    --related <N>              Scrape N related videos per URL
    --comments <N>             Max comments per post

Examples:
    tiktok video "https://www.tiktok.com/@user/video/1234567890"
    tiktok video "https://www.tiktok.com/@user/video/1234567890" --related 5 --json

## Exit Codes & Errors

Failures print YAML (or JSON) to stderr with a machine-readable `code` and matching exit status:

    0  ok             Success
    1  error          Unclassified error - report and stop
    2  network        Network failure or timeout - retry once, then stop
    3  auth_required  Invalid API key or missing permissions - do not retry
    4  not_found      Target resource not found - do not retry
    5  rate_limited   Rate limit or compute budget exceeded - back off before retrying
    6  invalid_input  Invalid arguments or parameters - fix the call
    7  no_account     No account or API key found - run tiktok login or accounts list
"#;

/// The rules an agent follows, in order.
pub open spec fn rules_text() -> Seq<Seq<char>> {
    seq![
        "Pass --account <name>, --api-key <key>, or set APIFY_TOKEN / TIKTOK_API_KEY in your environment."@,
        "Run 'tiktok accounts list' to see configured accounts, or 'tiktok login' to authenticate."@,
        "On code auth_required, stop and surface the remediation string. Do not retry."@,
        "Use --json when parsing command output programmatically or in agent tool loops."@,
        "TikTok scraping calls run synchronously via Apify and may take several seconds."@,
        "All errors print a structured envelope to stderr and exit with non-zero status."@,
    ]
}

/// The exit statuses and what each asks of an agent.
pub open spec fn exit_code_members() -> Map<Seq<char>, JsonView> {
    no_members().insert("0"@, JsonView::Str("ok"@)).insert(
        "1"@,
        JsonView::Str("error - unclassified, report and stop"@),
    ).insert("2"@, JsonView::Str("network - retry once, then stop"@)).insert(
        "3"@,
        JsonView::Str("auth_required - stop, surface the remediation to a human"@),
    ).insert("4"@, JsonView::Str("not_found - do not retry"@)).insert(
        "5"@,
        JsonView::Str("rate_limited - back off before retrying"@),
    ).insert("6"@, JsonView::Str("invalid_input - fix the call"@)).insert(
        "7"@,
        JsonView::Str("no_account - run tiktok accounts list or login"@),
    )
}

/// The manual as data.
pub open spec fn manual_members() -> Map<Seq<char>, JsonView> {
    no_members().insert("tool"@, JsonView::Str("tiktok"@)).insert(
        "apiVersion"@,
        JsonView::Str(API_VERSION@),
    ).insert("rules"@, string_array(rules_text())).insert(
        "exitCodes"@,
        JsonView::Object(exit_code_members()),
    )
}

/// The manual's table of exit statuses lists every error code under the status it exits
/// with, its entry starting with the code's name.
pub proof fn lemma_manual_lists_codes(c: ErrorCode)
    ensures
        exit_code_members().contains_key(decimal(c.exit_status() as nat)),
        exit_code_members()[decimal(c.exit_status() as nat)] matches JsonView::Str(t) && t.len()
            > c.label().len() && t.take(c.label().len() as int) == c.label(),
{
    reveal_strlit("0");
    reveal_strlit("1");
    reveal_strlit("2");
    reveal_strlit("3");
    reveal_strlit("4");
    reveal_strlit("5");
    reveal_strlit("6");
    reveal_strlit("7");
    reveal_strlit("error");
    reveal_strlit("network");
    reveal_strlit("auth_required");
    reveal_strlit("not_found");
    reveal_strlit("rate_limited");
    reveal_strlit("invalid_input");
    reveal_strlit("no_account");
    reveal_strlit("error - unclassified, report and stop");
    reveal_strlit("network - retry once, then stop");
    reveal_strlit("auth_required - stop, surface the remediation to a human");
    reveal_strlit("not_found - do not retry");
    reveal_strlit("rate_limited - back off before retrying");
    reveal_strlit("invalid_input - fix the call");
    reveal_strlit("no_account - run tiktok accounts list or login");
    let key = decimal(c.exit_status() as nat);
    assert(key == seq![crate::text::digit_char(c.exit_status())]);
    let m = exit_code_members();
    match c {
        ErrorCode::Error => {
            assert(key =~= "1"@);
            assert(m["1"@] == JsonView::Str("error - unclassified, report and stop"@)) by {
                assert("1"@[0] != "2"@[0]);
                assert("1"@[0] != "3"@[0]);
                assert("1"@[0] != "4"@[0]);
                assert("1"@[0] != "5"@[0]);
                assert("1"@[0] != "6"@[0]);
                assert("1"@[0] != "7"@[0]);
            }
        },
        ErrorCode::Network => {
            assert(key =~= "2"@);
            assert(m["2"@] == JsonView::Str("network - retry once, then stop"@)) by {
                assert("2"@[0] != "3"@[0]);
                assert("2"@[0] != "4"@[0]);
                assert("2"@[0] != "5"@[0]);
                assert("2"@[0] != "6"@[0]);
                assert("2"@[0] != "7"@[0]);
            }
        },
        ErrorCode::AuthRequired => {
            assert(key =~= "3"@);
            assert(m["3"@] == JsonView::Str(
                "auth_required - stop, surface the remediation to a human"@,
            ));
        },
        ErrorCode::NotFound => {
            assert(key =~= "4"@);
            assert(m["4"@] == JsonView::Str("not_found - do not retry"@));
        },
        ErrorCode::RateLimited => {
            assert(key =~= "5"@);
            assert(m["5"@] == JsonView::Str("rate_limited - back off before retrying"@));
        },
        ErrorCode::InvalidInput => {
            assert(key =~= "6"@);
            assert(m["6"@] == JsonView::Str("invalid_input - fix the call"@));
        },
        ErrorCode::NoAccount => {
            assert(key =~= "7"@);
            assert(m["7"@] == JsonView::Str("no_account - run tiktok accounts list or login"@));
        },
    }
    let t = m[key]->Str_0;
    assert(t.take(c.label().len() as int) =~= c.label());
}

/// The manual, in one of its two forms.
pub enum Manual {
    Json(serde_json::Value),
    Markdown(String),
}

/// What `print` gives: the manual as data with `--json`, else the Markdown text.
pub open spec fn print_post(json: bool, m: Manual) -> bool {
    if json {
        m matches Manual::Json(v) && json::json_view(v) == JsonView::Object(manual_members())
    } else {
        m matches Manual::Markdown(t) && t@ == README@
    }
}

/// The rules an agent follows, in order.
pub fn rules() -> (res: Vec<String>)
    ensures
        res.deep_view() == rules_text(),
{
    let mut res: Vec<String> = Vec::new();
    res.push(owned("Pass --account <name>, --api-key <key>, or set APIFY_TOKEN / TIKTOK_API_KEY in your environment."));
    res.push(owned("Run 'tiktok accounts list' to see configured accounts, or 'tiktok login' to authenticate."));
    res.push(owned("On code auth_required, stop and surface the remediation string. Do not retry."));
    res.push(owned("Use --json when parsing command output programmatically or in agent tool loops."));
    res.push(owned("TikTok scraping calls run synchronously via Apify and may take several seconds."));
    res.push(owned("All errors print a structured envelope to stderr and exit with non-zero status."));
    assert(res.deep_view() =~= rules_text());
    res
}

fn exit_codes() -> (res: serde_json::Value)
    ensures
        json::json_view(res) == JsonView::Object(exit_code_members()),
{
    let mut m = json::new_map();
    json::insert(&mut m, owned("0"), json::string(owned("ok")));
    json::insert(&mut m, owned("1"), json::string(owned("error - unclassified, report and stop")));
    json::insert(&mut m, owned("2"), json::string(owned("network - retry once, then stop")));
    json::insert(&mut m, owned("3"), json::string(owned("auth_required - stop, surface the remediation to a human")));
    json::insert(&mut m, owned("4"), json::string(owned("not_found - do not retry")));
    json::insert(&mut m, owned("5"), json::string(owned("rate_limited - back off before retrying")));
    json::insert(&mut m, owned("6"), json::string(owned("invalid_input - fix the call")));
    json::insert(&mut m, owned("7"), json::string(owned("no_account - run tiktok accounts list or login")));
    json::object(m)
}

/// The manual to print: as data when `json` (the `--json` flag), else as Markdown.
pub fn print(json: bool) -> (res: Manual)
    ensures
        print_post(json, res),
{
    if json {
        let mut m = json::new_map();
        json::insert(&mut m, owned("tool"), json::string(owned("tiktok")));
        json::insert(&mut m, owned("apiVersion"), json::string(owned(API_VERSION)));
        json::insert(&mut m, owned("rules"), json::strings(rules()));
        json::insert(&mut m, owned("exitCodes"), exit_codes());
        Manual::Json(json::object(m))
    } else {
        Manual::Markdown(owned(README))
    }
}

} // verus!
