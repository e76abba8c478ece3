use serde_json::Value;
use tiktok::account::{no_credentials, resolve, Credentials};
use tiktok::cli::{AuthArgs, Command, HashtagArgs, ProfileArgs, SearchArgs, VideoArgs};
use tiktok::client::{read, Client};
use tiktok::commands::{hashtag, profile, run, search, video, Action};
use tiktok::readme::{print, Manual, API_VERSION};

const SCRAPE_PATH: &str = "acts/clockworks~tiktok-scraper/run-sync-get-dataset-items";

fn j(text: &str) -> Value {
    serde_json::from_str(text).unwrap()
}

fn account(name: &str) -> AuthArgs {
    AuthArgs { account: Some(name.to_string()), api_key: None }
}

fn no_auth() -> AuthArgs {
    AuthArgs { account: None, api_key: None }
}

fn client() -> Client {
    Client::new("apify_test_token", Some("http://127.0.0.1:9/v2/".to_string()), None)
}

fn profile_args(usernames: &str) -> ProfileArgs {
    ProfileArgs {
        usernames: usernames.to_string(),
        limit: 1,
        sort: "latest".to_string(),
        since: None,
        until: None,
        sections: "videos".to_string(),
        exclude_pinned: false,
        comments: None,
        auth: no_auth(),
    }
}

fn search_args(queries: &str) -> SearchArgs {
    SearchArgs {
        queries: queries.to_string(),
        limit: 1,
        section: "top".to_string(),
        users: false,
        profiles: None,
        comments: None,
        auth: account("work"),
    }
}

#[test]
fn profile_command() {
    let args = ProfileArgs {
        usernames: "nike,adidas".to_string(),
        limit: 5,
        sort: "popular".to_string(),
        since: None,
        until: None,
        sections: "videos,reposts".to_string(),
        exclude_pinned: true,
        comments: Some(10),
        auth: account("work"),
    };
    let job = profile::run(&args).unwrap();
    let req = client().scrape(&job.body);
    assert!(req.url.starts_with("http://127.0.0.1:9/v2/"));
    assert!(req.url["http://127.0.0.1:9/v2/".len()..].starts_with(SCRAPE_PATH));
    let body = req.body.unwrap();
    assert_eq!(body["profiles"], j(r#"["nike", "adidas"]"#));
    assert_eq!(body["resultsPerPage"], 5);
    assert_eq!(body["profileSorting"], "popular");
    assert_eq!(body["profileScrapeSections"], j(r#"["videos", "reposts"]"#));
    assert_eq!(body["excludePinnedPosts"], true);
    assert_eq!(body["commentsPerPost"], 10);

    let response = r#"[{"id":"7123456789012345678","text":"Check out this video #coding","authorMeta":{"name":"nike","nickName":"Nike"}}]"#;
    let out = read(200, response.as_bytes()).unwrap();
    assert!(out.is_array());
    assert_eq!(out[0]["id"], "7123456789012345678");
}

#[test]
fn hashtag_command() {
    let args = HashtagArgs {
        hashtags: "#rustlang,#coding".to_string(),
        limit: 3,
        comments: Some(2),
        auth: account("work"),
    };
    let job = hashtag::run(&args).unwrap();
    let body = client().scrape(&job.body).body.unwrap();
    assert_eq!(body["hashtags"], j(r#"["rustlang", "coding"]"#));
    assert_eq!(body["resultsPerPage"], 3);
    assert_eq!(body["commentsPerPost"], 2);
    let out = read(200, br#"[{"id":"7987654321098765432","text":"Rust is amazing #rustlang","hashtags":[{"name":"rustlang"}]}]"#).unwrap();
    assert!(out.is_array());
}

#[test]
fn search_command_top_and_users() {
    let mut args = search_args("machine learning");
    args.limit = 10;
    args.section = "video".to_string();
    let body = client().scrape(&search::run(&args).unwrap().body).body.unwrap();
    assert_eq!(body["searchQueries"], j(r#"["machine learning"]"#));
    assert_eq!(body["resultsPerPage"], 10);
    assert_eq!(body["searchSection"], "/video");

    let mut args2 = search_args("tech");
    args2.users = true;
    args2.profiles = Some(5);
    let body2 = client().scrape(&search::run(&args2).unwrap().body).body.unwrap();
    assert_eq!(body2["searchQueries"], j(r#"["tech"]"#));
    assert_eq!(body2["searchSection"], "/user");
    assert_eq!(body2["maxProfilesPerQuery"], 5);
}

#[test]
fn video_command() {
    let args = VideoArgs {
        urls: "https://www.tiktok.com/@user/video/1234567890".to_string(),
        related: Some(3),
        comments: Some(5),
        auth: account("work"),
    };
    let body = client().scrape(&video::run(&args).unwrap().body).body.unwrap();
    assert_eq!(body["postURLs"], j(r#"["https://www.tiktok.com/@user/video/1234567890"]"#));
    assert_eq!(body["scrapeRelatedVideos"], true);
    assert_eq!(body["resultsPerPage"], 3);
    assert_eq!(body["commentsPerPost"], 5);
}

#[test]
fn direct_api_key_flag_and_env() {
    // 1. Direct flag
    let auth = AuthArgs { account: None, api_key: Some("token_flag".to_string()) };
    let key = match resolve(&auth, None, None) {
        Ok(Credentials::Key(k)) => k,
        other => panic!("unexpected credentials: {other:?}"),
    };
    let req = Client::new(&key, None, None).scrape(&profile::run(&profile_args("nike")).unwrap().body);
    assert!(req.headers.iter().any(|(k, v)| k.to_lowercase() == "authorization" && v == "Bearer token_flag"));

    // 2. Direct env var
    let key = match resolve(&no_auth(), Some("token_env".to_string()), None) {
        Ok(Credentials::Key(k)) => k,
        other => panic!("unexpected credentials: {other:?}"),
    };
    let req2 = Client::new(&key, None, None).scrape(&profile::run(&profile_args("nike")).unwrap().body);
    assert!(req2.headers.iter().any(|(k, v)| k.to_lowercase() == "authorization" && v == "Bearer token_env"));
}

#[test]
fn no_account_error() {
    let err = resolve(&no_auth(), None, None).err().unwrap();
    assert_eq!(err.exit_code(), 7);
    assert_eq!(err.to_json()["code"], "no_account");
    assert_eq!(err.message, no_credentials().message);
}

#[test]
fn agent_readme_prints_json() {
    let out = match print(true) {
        Manual::Json(v) => v,
        Manual::Markdown(_) => panic!("expected JSON"),
    };
    assert_eq!(out["tool"], "tiktok");
    assert_eq!(out["apiVersion"], "2.0.0");
    assert!(out["rules"].is_array());
    assert!(out["exitCodes"]["0"].is_string());
}

#[test]
fn agent_readme_prints_markdown() {
    let stdout = match print(false) {
        Manual::Markdown(t) => t,
        Manual::Json(_) => panic!("expected Markdown"),
    };
    assert!(stdout.contains("# tiktok - agent operating manual"));
    assert!(stdout.contains("profile"));
    assert!(stdout.contains("hashtag"));
    assert!(stdout.contains("search"));
    assert!(stdout.contains("video"));
}

#[test]
fn manual_data_matches_codes() {
    let out = match print(true) {
        Manual::Json(v) => v,
        Manual::Markdown(_) => panic!("expected JSON"),
    };
    assert_eq!(out["apiVersion"], API_VERSION);
    assert_eq!(out["rules"].as_array().unwrap().len(), 6);
    assert_eq!(out["exitCodes"]["3"], "auth_required - stop, surface the remediation to a human");
    assert_eq!(out["exitCodes"]["7"], "no_account - run tiktok accounts list or login");
    assert!(out["exitCodes"]["8"].is_null());
}

#[test]
fn empty_lists_are_refused() {
    let e = profile::run(&profile_args(" , ,")).err().unwrap();
    assert_eq!(e.message, "At least one username or profile URL is required.");
    assert_eq!(e.exit_code(), 6);
    let e = hashtag::run(&HashtagArgs { hashtags: "#, ##".to_string(), limit: 1, comments: None, auth: no_auth() })
        .err()
        .unwrap();
    assert_eq!(e.message, "At least one hashtag is required.");
    let e = search::run(&search_args("")).err().unwrap();
    assert_eq!(e.message, "At least one search query is required.");
    let e = video::run(&VideoArgs { urls: ",".to_string(), related: None, comments: None, auth: no_auth() })
        .err()
        .unwrap();
    assert_eq!(e.message, "At least one video URL is required.");
}

#[test]
fn profile_defaults_and_dates() {
    let mut args = profile_args(" nike , , https://www.tiktok.com/@adidas ");
    args.sections = " , ".to_string();
    args.since = Some("2025-01-01".to_string());
    args.until = Some("2025-02-01".to_string());
    let job = profile::run(&args).unwrap();
    assert_eq!(job.targets, 2);
    assert_eq!(job.progress, "Scraping 2 profile(s) (this may take a while)...");
    assert_eq!(
        job.body,
        j(r#"{"profiles":["nike","https://www.tiktok.com/@adidas"],"resultsPerPage":1,"profileSorting":"latest",
             "profileScrapeSections":["videos"],"excludePinnedPosts":false,
             "oldestPostDateUnified":"2025-01-01","newestPostDate":"2025-02-01"}"#)
    );
}

#[test]
fn search_sections_ignore_case() {
    let mut args = search_args("q");
    args.section = "USER".to_string();
    assert_eq!(search::section(&args), "/user");
    args.section = "Video".to_string();
    assert_eq!(search::section(&args), "/video");
    args.section = "top".to_string();
    assert_eq!(search::section(&args), "");
    args.section = "vidéo".to_string();
    assert_eq!(search::section(&args), "");
    let body = search::run(&args).unwrap().body;
    assert_eq!(body["searchSection"], "");
    assert!(body.get("maxProfilesPerQuery").is_none());
    assert!(body.get("commentsPerPost").is_none());
}

#[test]
fn video_without_related() {
    let args = VideoArgs { urls: "a, b ,c".to_string(), related: None, comments: None, auth: no_auth() };
    let job = video::run(&args).unwrap();
    assert_eq!(job.targets, 3);
    assert_eq!(
        job.body,
        j(r#"{"postURLs":["a","b","c"],"scrapeRelatedVideos":false,"resultsPerPage":1}"#)
    );
    assert_eq!(job.progress, "Scraping 3 video(s) (this may take a while)...");
}

#[test]
fn dispatch_keeps_auth_and_job() {
    let mut args = profile_args("nike");
    args.auth = account("work");
    match run(Command::Profile(args), false) {
        Action::Scrape { auth, job } => {
            assert_eq!(auth.account.as_deref(), Some("work"));
            assert_eq!(job.unwrap().body["profiles"], j(r#"["nike"]"#));
        }
        _ => panic!("expected a scrape"),
    }
    match run(Command::Hashtag(HashtagArgs { hashtags: "".to_string(), limit: 1, comments: None, auth: no_auth() }), false) {
        Action::Scrape { job, .. } => assert!(job.is_err()),
        _ => panic!("expected a scrape"),
    }
    match run(Command::AgentReadme, true) {
        Action::Manual(Manual::Json(v)) => assert_eq!(v["tool"], "tiktok"),
        _ => panic!("expected the manual as data"),
    }
}

#[test]
fn credential_precedence() {
    let both = AuthArgs { account: Some("work".to_string()), api_key: Some("  k1 ".to_string()) };
    assert!(matches!(resolve(&both, Some("e".to_string()), None), Ok(Credentials::Key(k)) if k == "k1"));
    let blank_key = AuthArgs { account: Some("work".to_string()), api_key: Some("  ".to_string()) };
    assert!(matches!(resolve(&blank_key, Some("e".to_string()), None), Ok(Credentials::Account(a)) if a == "work"));
    assert!(matches!(resolve(&no_auth(), Some(" ".to_string()), Some("t2".to_string())), Ok(Credentials::Key(k)) if k == "t2"));
}

#[test]
fn users_flag_equals_user_section() {
    let mut a = search_args("tech, ai");
    a.users = true;
    a.section = "video".to_string();
    a.profiles = Some(5);
    let mut b = search_args("tech, ai");
    b.section = "user".to_string();
    b.profiles = Some(5);
    assert_eq!(search::run(&a).unwrap().body, search::run(&b).unwrap().body);
}

#[test]
fn users_search_defaults_to_ten_profiles() {
    let mut args = search_args("tech");
    args.users = true;
    let body = search::run(&args).unwrap().body;
    assert_eq!(body["searchSection"], "/user");
    assert_eq!(body["maxProfilesPerQuery"], 10);
    let mut args = search_args("tech");
    args.section = "User".to_string();
    assert_eq!(search::run(&args).unwrap().body["maxProfilesPerQuery"], 10);
    let mut args = search_args("tech");
    args.profiles = Some(3);
    assert_eq!(search::run(&args).unwrap().body["maxProfilesPerQuery"], 3);
}
