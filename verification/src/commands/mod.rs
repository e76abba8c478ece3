//! The commands: what each one sends to the scraper, and which work a command line asks for.

pub mod accounts;
pub mod hashtag;
pub mod profile;
pub mod search;
pub mod video;

use vstd::prelude::*;
use crate::cli::{AuthArgs, Command, LoginArgs};
use crate::error::Error;
use crate::json;
use crate::json::JsonView;
use crate::readme;
use crate::text::{decimal, decimal_string, owned};
use accounts::AccountsTask;

verus! {

/// A scraper run ready to be sent: its input, how many targets it names, and the progress
/// line shown while it runs.
pub struct ScrapeJob {
    pub body: serde_json::Value,
    pub targets: usize,
    pub progress: String,
}

/// The members of a job's input (none where the input is not an object).
pub open spec fn job_members(job: ScrapeJob) -> Map<Seq<char>, JsonView> {
    match json::json_view(job.body) {
        JsonView::Object(m) => m,
        _ => Map::empty(),
    }
}

/// The members with an integer added under the key when there is one.
pub open spec fn with_count(m: Map<Seq<char>, JsonView>, key: Seq<char>, n: Option<usize>) -> Map<
    Seq<char>,
    JsonView,
> {
    match n {
        Some(v) => m.insert(key, JsonView::Int(v as int)),
        None => m,
    }
}

/// The members with a string added under the key when there is one.
pub open spec fn with_text(m: Map<Seq<char>, JsonView>, key: Seq<char>, t: Option<Seq<char>>) -> Map<
    Seq<char>,
    JsonView,
> {
    match t {
        Some(v) => m.insert(key, JsonView::Str(v)),
        None => m,
    }
}

/// A progress line: the verb, the count, and what is counted.
pub open spec fn progress_line(verb: Seq<char>, n: nat, noun: Seq<char>) -> Seq<char> {
    verb + decimal(n) + noun
}

/// Adds an integer under the key when there is one.
pub fn insert_count(
    m: &mut serde_json::Map<String, serde_json::Value>,
    key: &str,
    n: Option<usize>,
)
    ensures
        json::json_map_view(*final(m)) == with_count(json::json_map_view(*old(m)), key@, n),
{
    match n {
        Some(v) => json::insert(m, owned(key), json::count(v)),
        None => {},
    }
}

/// Adds a string under the key when there is one.
pub fn insert_text(
    m: &mut serde_json::Map<String, serde_json::Value>,
    key: &str,
    t: &Option<String>,
)
    ensures
        json::json_map_view(*final(m)) == with_text(
            json::json_map_view(*old(m)),
            key@,
            crate::text::opt_text(*t),
        ),
{
    match t {
        Some(v) => json::insert(m, owned(key), json::string(v.clone())),
        None => {},
    }
}

/// The progress line for `n` targets.
pub fn progress(verb: &str, n: usize, noun: &str) -> (res: String)
    ensures
        res@ == progress_line(verb@, n as nat, noun@),
{
    let mut line = owned(verb);
    line.append(decimal_string(n as u64).as_str());
    line.append(noun);
    line
}

/// The work a command line asks for.
pub enum Action {
    /// Resolve the credentials, then run the scraper job (or report why there is none).
    Scrape { auth: AuthArgs, job: Result<ScrapeJob, Error> },
    /// Account management.
    Accounts(AccountsTask),
    /// Interactive login.
    Login(LoginArgs),
    /// Print the agent manual.
    Manual(readme::Manual),
}

/// Dispatches a command to the work it asks for. `json` is the global `--json` flag.
pub fn run(cmd: Command, json: bool) -> (res: Action)
    ensures
        match cmd {
            Command::Profile(a) => res matches Action::Scrape { auth, job } && auth == a.auth
                && profile::run_post(a, job),
            Command::Hashtag(a) => res matches Action::Scrape { auth, job } && auth == a.auth
                && hashtag::run_post(a, job),
            Command::Search(a) => res matches Action::Scrape { auth, job } && auth == a.auth
                && search::run_post(a, job),
            Command::Video(a) => res matches Action::Scrape { auth, job } && auth == a.auth
                && video::run_post(a, job),
            Command::Accounts(c) => res matches Action::Accounts(t) && t == accounts::task_for(c),
            Command::Login(a) => res matches Action::Login(l) && l == a,
            Command::AgentReadme => res matches Action::Manual(m) && readme::print_post(json, m),
        },
{
    match cmd {
        Command::Profile(args) => {
            let job = profile::run(&args);
            Action::Scrape { auth: args.auth, job }
        },
        Command::Hashtag(args) => {
            let job = hashtag::run(&args);
            Action::Scrape { auth: args.auth, job }
        },
        Command::Search(args) => {
            let job = search::run(&args);
            Action::Scrape { auth: args.auth, job }
        },
        Command::Video(args) => {
            let job = video::run(&args);
            Action::Scrape { auth: args.auth, job }
        },
        Command::Accounts(c) => Action::Accounts(accounts::run(c)),
        Command::Login(args) => Action::Login(args),
        Command::AgentReadme => Action::Manual(readme::print(json)),
    }
}

} // verus!
