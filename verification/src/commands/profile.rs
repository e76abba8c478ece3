//! `tiktok profile <USERNAMES>`: the scraper input for user profiles.

use vstd::prelude::*;
use crate::cli::ProfileArgs;
use crate::commands::{
    insert_count, insert_text, job_members, progress, progress_line, with_count, with_text,
    ScrapeJob,
};
use crate::error::{Error, ErrorCode, ErrorView};
use crate::json;
use crate::json::{no_members, string_array, JsonView};
use crate::text::{comma_list, opt_text, owned, split_list};

verus! {

/// The sections to scrape: those listed, or `videos` when none is.
pub open spec fn profile_sections(args: ProfileArgs) -> Seq<Seq<char>> {
    let listed = comma_list(args.sections@);
    if listed.len() == 0 {
        seq!["videos"@]
    } else {
        listed
    }
}

/// The scraper input for a profile command.
pub open spec fn profile_input(args: ProfileArgs) -> Map<Seq<char>, JsonView> {
    let m = no_members().insert("profiles"@, string_array(comma_list(args.usernames@))).insert(
        "resultsPerPage"@,
        JsonView::Int(args.limit as int),
    ).insert("profileSorting"@, JsonView::Str(args.sort@)).insert(
        "profileScrapeSections"@,
        string_array(profile_sections(args)),
    ).insert("excludePinnedPosts"@, JsonView::Bool(args.exclude_pinned));
    let m = with_text(m, "oldestPostDateUnified"@, opt_text(args.since));
    let m = with_text(m, "newestPostDate"@, opt_text(args.until));
    with_count(m, "commentsPerPost"@, args.comments)
}

/// What `run` gives for the arguments: an `invalid_input` error when no username is listed,
/// else the job with the profile input.
pub open spec fn run_post(args: ProfileArgs, res: Result<ScrapeJob, Error>) -> bool {
    let names = comma_list(args.usernames@);
    match res {
        Ok(job) => {
            &&& names.len() > 0
            &&& json::json_view(job.body) == JsonView::Object(profile_input(args))
            &&& job.targets == names.len()
            &&& job.progress@ == progress_line(
                "Scraping "@,
                names.len(),
                " profile(s) (this may take a while)..."@,
            )
        },
        Err(e) => {
            &&& names.len() == 0
            &&& e@ == ErrorView::plain(
                ErrorCode::InvalidInput,
                "At least one username or profile URL is required."@,
            )
        },
    }
}

/// What a profile command sends: its usernames; its page size; the `--sort` text as given;
/// the listed sections, or `videos` when none is; whether pinned posts are left out; the
/// `--since`, `--until` and `--comments` members exactly when those options are given, each
/// with its value; nothing else.
pub proof fn lemma_profile_members(args: ProfileArgs, job: ScrapeJob)
    requires
        run_post(args, Ok(job)),
    ensures
        json::json_view(job.body) is Object,
        job_members(job).contains_key("profiles"@),
        job_members(job)["profiles"@] == string_array(comma_list(args.usernames@)),
        job_members(job).contains_key("resultsPerPage"@),
        job_members(job)["resultsPerPage"@] == JsonView::Int(args.limit as int),
        job_members(job).contains_key("profileSorting"@),
        job_members(job)["profileSorting"@] == JsonView::Str(args.sort@),
        job_members(job).contains_key("profileScrapeSections"@),
        comma_list(args.sections@).len() == 0 ==> job_members(job)["profileScrapeSections"@]
            == string_array(seq!["videos"@]),
        comma_list(args.sections@).len() > 0 ==> job_members(job)["profileScrapeSections"@]
            == string_array(comma_list(args.sections@)),
        job_members(job).contains_key("excludePinnedPosts"@),
        job_members(job)["excludePinnedPosts"@] == JsonView::Bool(args.exclude_pinned),
        job_members(job).contains_key("oldestPostDateUnified"@) <==> args.since is Some,
        args.since matches Some(d) ==> job_members(job)["oldestPostDateUnified"@] == JsonView::Str(
            d@,
        ),
        job_members(job).contains_key("newestPostDate"@) <==> args.until is Some,
        args.until matches Some(d) ==> job_members(job)["newestPostDate"@] == JsonView::Str(d@),
        job_members(job).contains_key("commentsPerPost"@) <==> args.comments is Some,
        forall|c: usize|
            args.comments == Some(c) ==> job_members(job)["commentsPerPost"@] == JsonView::Int(
                c as int,
            ),
        forall|k: Seq<char>|
            job_members(job).contains_key(k) ==> k == "profiles"@ || k == "resultsPerPage"@
                || k == "profileSorting"@ || k == "profileScrapeSections"@ || k
                == "excludePinnedPosts"@ || k == "oldestPostDateUnified"@ || k == "newestPostDate"@
                || k == "commentsPerPost"@,
{
    reveal_strlit("profiles");
    reveal_strlit("resultsPerPage");
    reveal_strlit("profileSorting");
    reveal_strlit("profileScrapeSections");
    reveal_strlit("excludePinnedPosts");
    reveal_strlit("oldestPostDateUnified");
    reveal_strlit("newestPostDate");
    reveal_strlit("commentsPerPost");
    assert("profiles"@.len() != "resultsPerPage"@.len());
    assert("profiles"@.len() != "profileSorting"@.len());
    assert("profiles"@.len() != "profileScrapeSections"@.len());
    assert("profiles"@.len() != "excludePinnedPosts"@.len());
    assert("profiles"@.len() != "oldestPostDateUnified"@.len());
    assert("profiles"@.len() != "newestPostDate"@.len());
    assert("profiles"@.len() != "commentsPerPost"@.len());
    assert("resultsPerPage"@[0] != "profileSorting"@[0]);
    assert("resultsPerPage"@.len() != "profileScrapeSections"@.len());
    assert("resultsPerPage"@.len() != "excludePinnedPosts"@.len());
    assert("resultsPerPage"@.len() != "oldestPostDateUnified"@.len());
    assert("resultsPerPage"@[0] != "newestPostDate"@[0]);
    assert("resultsPerPage"@.len() != "commentsPerPost"@.len());
    assert("profileSorting"@.len() != "profileScrapeSections"@.len());
    assert("profileSorting"@.len() != "excludePinnedPosts"@.len());
    assert("profileSorting"@.len() != "oldestPostDateUnified"@.len());
    assert("profileSorting"@[0] != "newestPostDate"@[0]);
    assert("profileSorting"@.len() != "commentsPerPost"@.len());
    assert("profileScrapeSections"@.len() != "excludePinnedPosts"@.len());
    assert("profileScrapeSections"@[0] != "oldestPostDateUnified"@[0]);
    assert("profileScrapeSections"@.len() != "newestPostDate"@.len());
    assert("profileScrapeSections"@.len() != "commentsPerPost"@.len());
    assert("excludePinnedPosts"@.len() != "oldestPostDateUnified"@.len());
    assert("excludePinnedPosts"@.len() != "newestPostDate"@.len());
    assert("excludePinnedPosts"@.len() != "commentsPerPost"@.len());
    assert("oldestPostDateUnified"@.len() != "newestPostDate"@.len());
    assert("oldestPostDateUnified"@.len() != "commentsPerPost"@.len());
    assert("newestPostDate"@.len() != "commentsPerPost"@.len());
}

/// The scraper job for a profile command.
pub fn run(args: &ProfileArgs) -> (res: Result<ScrapeJob, Error>)
    ensures
        run_post(*args, res),
{
    let profiles = split_list(args.usernames.as_str());
    if profiles.len() == 0 {
        return Err(Error::invalid(owned("At least one username or profile URL is required.")));
    }
    let mut sections = split_list(args.sections.as_str());
    if sections.len() == 0 {
        let ghost before = sections.deep_view();
        sections.push(owned("videos"));
        assert(sections.deep_view() =~= seq!["videos"@]);
    }
    let targets = profiles.len();
    let mut body = json::new_map();
    json::insert(&mut body, owned("profiles"), json::strings(profiles));
    json::insert(&mut body, owned("resultsPerPage"), json::count(args.limit));
    json::insert(&mut body, owned("profileSorting"), json::string(args.sort.clone()));
    json::insert(&mut body, owned("profileScrapeSections"), json::strings(sections));
    json::insert(&mut body, owned("excludePinnedPosts"), json::boolean(args.exclude_pinned));
    insert_text(&mut body, "oldestPostDateUnified", &args.since);
    insert_text(&mut body, "newestPostDate", &args.until);
    insert_count(&mut body, "commentsPerPost", args.comments);
    Ok(
        ScrapeJob {
            body: json::object(body),
            targets,
            progress: progress("Scraping ", targets, " profile(s) (this may take a while)..."),
        },
    )
}

} // verus!
