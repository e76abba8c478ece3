//! `tiktok hashtag <HASHTAGS>`: the scraper input for hashtags.

use vstd::prelude::*;
use crate::cli::HashtagArgs;
use crate::commands::{insert_count, job_members, progress, progress_line, with_count, ScrapeJob};
use crate::error::{Error, ErrorCode, ErrorView};
use crate::json;
use crate::json::{no_members, string_array, JsonView};
use crate::text::{hashtag_list, owned, split_hashtags};

verus! {

/// The scraper input for a hashtag command.
pub open spec fn hashtag_input(args: HashtagArgs) -> Map<Seq<char>, JsonView> {
    let m = no_members().insert("hashtags"@, string_array(hashtag_list(args.hashtags@))).insert(
        "resultsPerPage"@,
        JsonView::Int(args.limit as int),
    );
    with_count(m, "commentsPerPost"@, args.comments)
}

/// What `run` gives for the arguments: an `invalid_input` error when no hashtag is listed,
/// else the job with the hashtag input.
pub open spec fn run_post(args: HashtagArgs, res: Result<ScrapeJob, Error>) -> bool {
    let tags = hashtag_list(args.hashtags@);
    match res {
        Ok(job) => {
            &&& tags.len() > 0
            &&& json::json_view(job.body) == JsonView::Object(hashtag_input(args))
            &&& job.targets == tags.len()
            &&& job.progress@ == progress_line(
                "Scraping "@,
                tags.len(),
                " hashtag(s) (this may take a while)..."@,
            )
        },
        Err(e) => {
            &&& tags.len() == 0
            &&& e@ == ErrorView::plain(ErrorCode::InvalidInput, "At least one hashtag is required."@)
        },
    }
}

/// What a hashtag command sends: its hashtags, its page size, and `commentsPerPost` exactly
/// when `--comments` is given, with that value; nothing else.
pub proof fn lemma_hashtag_members(args: HashtagArgs, job: ScrapeJob)
    requires
        run_post(args, Ok(job)),
    ensures
        json::json_view(job.body) is Object,
        job_members(job).contains_key("hashtags"@),
        job_members(job)["hashtags"@] == string_array(hashtag_list(args.hashtags@)),
        job_members(job).contains_key("resultsPerPage"@),
        job_members(job)["resultsPerPage"@] == JsonView::Int(args.limit as int),
        job_members(job).contains_key("commentsPerPost"@) <==> args.comments is Some,
        forall|c: usize|
            args.comments == Some(c) ==> job_members(job)["commentsPerPost"@] == JsonView::Int(
                c as int,
            ),
        forall|k: Seq<char>|
            job_members(job).contains_key(k) ==> k == "hashtags"@ || k == "resultsPerPage"@ || k
                == "commentsPerPost"@,
{
    reveal_strlit("hashtags");
    reveal_strlit("resultsPerPage");
    reveal_strlit("commentsPerPost");
    assert("hashtags"@.len() != "resultsPerPage"@.len());
    assert("hashtags"@.len() != "commentsPerPost"@.len());
    assert("resultsPerPage"@.len() != "commentsPerPost"@.len());
}

/// The scraper job for a hashtag command.
pub fn run(args: &HashtagArgs) -> (res: Result<ScrapeJob, Error>)
    ensures
        run_post(*args, res),
{
    let hashtags = split_hashtags(args.hashtags.as_str());
    if hashtags.len() == 0 {
        return Err(Error::invalid(owned("At least one hashtag is required.")));
    }
    let targets = hashtags.len();
    let mut body = json::new_map();
    json::insert(&mut body, owned("hashtags"), json::strings(hashtags));
    json::insert(&mut body, owned("resultsPerPage"), json::count(args.limit));
    insert_count(&mut body, "commentsPerPost", args.comments);
    Ok(
        ScrapeJob {
            body: json::object(body),
            targets,
            progress: progress("Scraping ", targets, " hashtag(s) (this may take a while)..."),
        },
    )
}

} // verus!
