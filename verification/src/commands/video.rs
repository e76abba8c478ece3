//! `tiktok video <URLS>`: the scraper input for video URLs.

use vstd::prelude::*;
use crate::cli::VideoArgs;
use crate::commands::{insert_count, job_members, progress, progress_line, with_count, ScrapeJob};
use crate::error::{Error, ErrorCode, ErrorView};
use crate::json;
use crate::json::{no_members, string_array, JsonView};
use crate::text::{comma_list, owned, split_list};

verus! {

/// The scraper input for a video command: related videos are scraped when `--related` is
/// given, and the results per page are its value (1 without it).
pub open spec fn video_input(args: VideoArgs) -> Map<Seq<char>, JsonView> {
    let per_page: int = match args.related {
        Some(n) => n as int,
        None => 1,
    };
    let m = no_members().insert("postURLs"@, string_array(comma_list(args.urls@))).insert(
        "scrapeRelatedVideos"@,
        JsonView::Bool(args.related is Some),
    ).insert("resultsPerPage"@, JsonView::Int(per_page));
    with_count(m, "commentsPerPost"@, args.comments)
}

/// What `run` gives for the arguments: an `invalid_input` error when no URL is listed,
/// else the job with the video input.
pub open spec fn run_post(args: VideoArgs, res: Result<ScrapeJob, Error>) -> bool {
    let urls = comma_list(args.urls@);
    match res {
        Ok(job) => {
            &&& urls.len() > 0
            &&& json::json_view(job.body) == JsonView::Object(video_input(args))
            &&& job.targets == urls.len()
            &&& job.progress@ == progress_line(
                "Scraping "@,
                urls.len(),
                " video(s) (this may take a while)..."@,
            )
        },
        Err(e) => {
            &&& urls.len() == 0
            &&& e@ == ErrorView::plain(ErrorCode::InvalidInput, "At least one video URL is required."@)
        },
    }
}

/// What a video command sends: its URLs; whether related videos are scraped, which is
/// whether `--related` is given; as results per page, the `--related` value or else 1,
/// whatever the number of URLs; `commentsPerPost` exactly when `--comments` is given, with
/// that value; nothing else.
pub proof fn lemma_video_members(args: VideoArgs, job: ScrapeJob)
    requires
        run_post(args, Ok(job)),
    ensures
        json::json_view(job.body) is Object,
        job_members(job).contains_key("postURLs"@),
        job_members(job)["postURLs"@] == string_array(comma_list(args.urls@)),
        job_members(job).contains_key("scrapeRelatedVideos"@),
        job_members(job)["scrapeRelatedVideos"@] == JsonView::Bool(args.related is Some),
        job_members(job).contains_key("resultsPerPage"@),
        forall|n: usize|
            args.related == Some(n) ==> job_members(job)["resultsPerPage"@] == JsonView::Int(
                n as int,
            ),
        args.related is None ==> job_members(job)["resultsPerPage"@] == JsonView::Int(1),
        job_members(job).contains_key("commentsPerPost"@) <==> args.comments is Some,
        forall|c: usize|
            args.comments == Some(c) ==> job_members(job)["commentsPerPost"@] == JsonView::Int(
                c as int,
            ),
        forall|k: Seq<char>|
            job_members(job).contains_key(k) ==> k == "postURLs"@ || k == "scrapeRelatedVideos"@
                || k == "resultsPerPage"@ || k == "commentsPerPost"@,
{
    reveal_strlit("postURLs");
    reveal_strlit("scrapeRelatedVideos");
    reveal_strlit("resultsPerPage");
    reveal_strlit("commentsPerPost");
    assert("postURLs"@.len() != "scrapeRelatedVideos"@.len());
    assert("postURLs"@.len() != "resultsPerPage"@.len());
    assert("postURLs"@.len() != "commentsPerPost"@.len());
    assert("scrapeRelatedVideos"@.len() != "resultsPerPage"@.len());
    assert("scrapeRelatedVideos"@.len() != "commentsPerPost"@.len());
    assert("resultsPerPage"@.len() != "commentsPerPost"@.len());
}

/// The number of related videos asked per URL does not depend on the URLs: two video
/// commands that differ only in their URLs (each listing at least one) send the same
/// results per page.
pub proof fn lemma_related_per_url(a: VideoArgs, b: VideoArgs, ja: ScrapeJob, jb: ScrapeJob)
    requires
        run_post(a, Ok(ja)),
        run_post(b, Ok(jb)),
        a.related == b.related,
    ensures
        job_members(ja)["resultsPerPage"@] == job_members(jb)["resultsPerPage"@],
{
    lemma_video_members(a, ja);
    lemma_video_members(b, jb);
}

/// The scraper job for a video command.
pub fn run(args: &VideoArgs) -> (res: Result<ScrapeJob, Error>)
    ensures
        run_post(*args, res),
{
    let urls = split_list(args.urls.as_str());
    if urls.len() == 0 {
        return Err(Error::invalid(owned("At least one video URL is required.")));
    }
    let targets = urls.len();
    let per_page: usize = match args.related {
        Some(n) => n,
        None => 1,
    };
    let mut body = json::new_map();
    json::insert(&mut body, owned("postURLs"), json::strings(urls));
    json::insert(&mut body, owned("scrapeRelatedVideos"), json::boolean(args.related.is_some()));
    json::insert(&mut body, owned("resultsPerPage"), json::count(per_page));
    insert_count(&mut body, "commentsPerPost", args.comments);
    Ok(
        ScrapeJob {
            body: json::object(body),
            targets,
            progress: progress("Scraping ", targets, " video(s) (this may take a while)..."),
        },
    )
}

} // verus!
