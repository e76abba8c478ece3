//! The command line: global flags, commands and their arguments, as plain values.

use vstd::prelude::*;

verus! {

/// How a command authenticates: a stored account, or an API key given directly.
#[derive(Debug)]
pub struct AuthArgs {
    /// Name of a stored account (`--account`, `-a`).
    pub account: Option<String>,
    /// Apify API token given on the command line (`--api-key`).
    pub api_key: Option<String>,
}

/// The whole command line.
#[derive(Debug)]
pub struct Cli {
    /// Output raw JSON instead of YAML.
    pub json: bool,
    pub command: Command,
}

/// The commands.
#[derive(Debug)]
pub enum Command {
    /// Scrape videos from TikTok user profiles.
    Profile(ProfileArgs),
    /// Scrape videos by TikTok hashtag.
    Hashtag(HashtagArgs),
    /// Search TikTok for videos or users.
    Search(SearchArgs),
    /// Scrape specific TikTok videos by URL.
    Video(VideoArgs),
    /// Manage stored API credentials and multi-account configurations.
    Accounts(AccountsCommand),
    /// Authenticate with Apify/TikTok and store credentials in the OS keystore.
    Login(LoginArgs),
    /// Output agent operating manual and machine-readable instructions.
    AgentReadme,
}

/// Arguments of `profile`.
#[derive(Debug)]
pub struct ProfileArgs {
    /// Comma-separated TikTok usernames or URLs.
    pub usernames: String,
    /// Number of videos per profile (default 1).
    pub limit: usize,
    /// Sort order: latest, popular, oldest (default latest).
    pub sort: String,
    /// Only videos published after this date.
    pub since: Option<String>,
    /// Only videos published before this date.
    pub until: Option<String>,
    /// Sections to scrape: videos, reposts (default videos).
    pub sections: String,
    /// Exclude pinned posts.
    pub exclude_pinned: bool,
    /// Max comments per post.
    pub comments: Option<usize>,
    pub auth: AuthArgs,
}

/// Arguments of `hashtag`.
#[derive(Debug)]
pub struct HashtagArgs {
    /// Comma-separated hashtags.
    pub hashtags: String,
    /// Number of videos per hashtag (default 1).
    pub limit: usize,
    /// Max comments per post.
    pub comments: Option<usize>,
    pub auth: AuthArgs,
}

/// Arguments of `search`.
#[derive(Debug)]
pub struct SearchArgs {
    /// Comma-separated search queries.
    pub queries: String,
    /// Number of results per query (default 1).
    pub limit: usize,
    /// Search section: top, video, user (default top).
    pub section: String,
    /// Shorthand to search users (equivalent to `--section user`).
    pub users: bool,
    /// Number of profiles per query when searching users.
    pub profiles: Option<usize>,
    /// Max comments per post.
    pub comments: Option<usize>,
    pub auth: AuthArgs,
}

/// Arguments of `video`.
#[derive(Debug)]
pub struct VideoArgs {
    /// Comma-separated TikTok video URLs.
    pub urls: String,
    /// Scrape N related videos per URL.
    pub related: Option<usize>,
    /// Max comments per post.
    pub comments: Option<usize>,
    pub auth: AuthArgs,
}

/// The `accounts` subcommands.
#[derive(Debug)]
pub enum AccountsCommand {
    /// Add an account and store its API token.
    Add { name: String, api_key: Option<String>, api_key_stdin: bool, force: bool, skip_verification: bool },
    /// List configured accounts, optionally probing each stored key.
    List { check: bool },
    /// Test stored credentials for an account.
    Test { name: String },
    /// Remove an account and delete its API token.
    Remove { name: String, yes: bool },
}

/// Arguments of `login`.
#[derive(Debug)]
pub struct LoginArgs {
    /// Account name to store the token under (default `default`).
    pub name: String,
    /// Apify API token.
    pub api_key: Option<String>,
    /// Read the API token from stdin.
    pub api_key_stdin: bool,
    /// Do not attempt to open a browser.
    pub no_browser: bool,
    /// Overwrite the account if it already exists.
    pub force: bool,
    /// Skip verifying the token against the API.
    pub skip_verification: bool,
}

} // verus!
