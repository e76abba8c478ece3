//! `tiktok search <QUERIES>`: the scraper input for searches.

use vstd::prelude::*;
use crate::cli::SearchArgs;
use crate::commands::{insert_count, job_members, progress, progress_line, with_count, ScrapeJob};
use crate::error::{Error, ErrorCode, ErrorView};
use crate::json;
use crate::json::{no_members, string_array, JsonView};
use crate::text::{comma_list, eq_ignore_ascii_case, owned, same_ignoring_ascii_case, split_list};

verus! {

/// The search section sent to the scraper: `/user` for `--users` or section `user`, `/video`
/// for section `video` (both ignoring ASCII case), and empty (top results) otherwise.
pub open spec fn search_section(args: SearchArgs) -> Seq<char> {
    if args.users || same_ignoring_ascii_case(args.section@, "user"@) {
        "/user"@
    } else if same_ignoring_ascii_case(args.section@, "video"@) {
        "/video"@
    } else {
        ""@
    }
}

/// The number of profiles per query: `--profiles` when given, else 10 when searching users,
/// else none.
pub open spec fn profiles_per_query(args: SearchArgs) -> Option<usize> {
    match args.profiles {
        Some(n) => Some(n),
        None => if search_section(args) == "/user"@ {
            Some(10usize)
        } else {
            None
        },
    }
}

/// The scraper input for a search command.
pub open spec fn search_input(args: SearchArgs) -> Map<Seq<char>, JsonView> {
    let m = no_members().insert("searchQueries"@, string_array(comma_list(args.queries@))).insert(
        "resultsPerPage"@,
        JsonView::Int(args.limit as int),
    ).insert("searchSection"@, JsonView::Str(search_section(args)));
    let m = with_count(m, "maxProfilesPerQuery"@, profiles_per_query(args));
    with_count(m, "commentsPerPost"@, args.comments)
}

/// What `run` gives for the arguments: an `invalid_input` error when no query is listed,
/// else the job with the search input.
pub open spec fn run_post(args: SearchArgs, res: Result<ScrapeJob, Error>) -> bool {
    let queries = comma_list(args.queries@);
    match res {
        Ok(job) => {
            &&& queries.len() > 0
            &&& json::json_view(job.body) == JsonView::Object(search_input(args))
            &&& job.targets == queries.len()
            &&& job.progress@ == progress_line(
                "Searching "@,
                queries.len(),
                " query/queries (this may take a while)..."@,
            )
        },
        Err(e) => {
            &&& queries.len() == 0
            &&& e@ == ErrorView::plain(
                ErrorCode::InvalidInput,
                "At least one search query is required."@,
            )
        },
    }
}

/// `--users` is shorthand for `--section user`: two searches that differ only in that
/// respect send the same input.
pub proof fn lemma_users_flag_is_user_section(a: SearchArgs, b: SearchArgs)
    requires
        a.users,
        !b.users,
        b.section@ == "user"@,
        a.queries@ == b.queries@,
        a.limit == b.limit,
        a.profiles == b.profiles,
        a.comments == b.comments,
    ensures
        search_input(a) == search_input(b),
{
    reveal_strlit("user");
    assert(same_ignoring_ascii_case(b.section@, "user"@));
}

/// What a search sends: its queries, its page size and its section; `commentsPerPost`
/// exactly when `--comments` is given, with that value; `maxProfilesPerQuery` exactly when
/// `--profiles` is given or users are searched, with `--profiles` or else 10; nothing else.
pub proof fn lemma_search_members(args: SearchArgs, job: ScrapeJob)
    requires
        run_post(args, Ok(job)),
    ensures
        json::json_view(job.body) is Object,
        job_members(job).contains_key("searchQueries"@),
        job_members(job)["searchQueries"@] == string_array(comma_list(args.queries@)),
        job_members(job).contains_key("resultsPerPage"@),
        job_members(job)["resultsPerPage"@] == JsonView::Int(args.limit as int),
        job_members(job).contains_key("searchSection"@),
        job_members(job)["searchSection"@] == JsonView::Str(search_section(args)),
        job_members(job).contains_key("commentsPerPost"@) <==> args.comments is Some,
        forall|c: usize|
            args.comments == Some(c) ==> job_members(job)["commentsPerPost"@] == JsonView::Int(
                c as int,
            ),
        job_members(job).contains_key("maxProfilesPerQuery"@) <==> (args.profiles is Some
            || search_section(args) == "/user"@),
        forall|p: usize|
            args.profiles == Some(p) ==> job_members(job)["maxProfilesPerQuery"@] == JsonView::Int(
                p as int,
            ),
        args.profiles is None && search_section(args) == "/user"@ ==> job_members(
            job,
        )["maxProfilesPerQuery"@] == JsonView::Int(10),
        forall|k: Seq<char>|
            job_members(job).contains_key(k) ==> k == "searchQueries"@ || k == "resultsPerPage"@
                || k == "searchSection"@ || k == "maxProfilesPerQuery"@ || k == "commentsPerPost"@,
{
    reveal_strlit("searchQueries");
    reveal_strlit("resultsPerPage");
    reveal_strlit("searchSection");
    reveal_strlit("maxProfilesPerQuery");
    reveal_strlit("commentsPerPost");
    assert("searchQueries"@[6] != "searchSection"@[6]);
    assert("searchQueries"@.len() != "resultsPerPage"@.len());
    assert("searchQueries"@.len() != "maxProfilesPerQuery"@.len());
    assert("searchQueries"@.len() != "commentsPerPost"@.len());
    assert("resultsPerPage"@.len() != "searchSection"@.len());
    assert("resultsPerPage"@.len() != "maxProfilesPerQuery"@.len());
    assert("resultsPerPage"@.len() != "commentsPerPost"@.len());
    assert("searchSection"@.len() != "maxProfilesPerQuery"@.len());
    assert("searchSection"@.len() != "commentsPerPost"@.len());
    assert("maxProfilesPerQuery"@.len() != "commentsPerPost"@.len());
}

/// Which section a search covers: users with `--users` or section `user` (in any case),
/// videos with section `video` (in any case) unless `--users` is given, and the top results
/// for any other section, the default `top` among them.
pub proof fn lemma_search_section_choice(args: SearchArgs)
    ensures
        args.users ==> search_section(args) == "/user"@,
        same_ignoring_ascii_case(args.section@, "user"@) ==> search_section(args) == "/user"@,
        !args.users && same_ignoring_ascii_case(args.section@, "video"@) ==> search_section(args)
            == "/video"@,
        !args.users && !same_ignoring_ascii_case(args.section@, "user"@)
            && !same_ignoring_ascii_case(args.section@, "video"@) ==> search_section(args)
            == ""@,
        !args.users && args.section@ == "top"@ ==> search_section(args) == ""@,
        search_section(args) == "/user"@ <==> (args.users || same_ignoring_ascii_case(
            args.section@,
            "user"@,
        )),
{
    reveal_strlit("/user");
    reveal_strlit("/video");
    reveal_strlit("");
    reveal_strlit("top");
    reveal_strlit("user");
    reveal_strlit("video");
    assert("/video"@.len() != "/user"@.len());
    assert("top"@.len() != "user"@.len());
    assert("top"@.len() != "video"@.len());
}

/// The search section for the arguments.
pub fn section(args: &SearchArgs) -> (res: &'static str)
    ensures
        res@ == search_section(*args),
{
    if args.users || eq_ignore_ascii_case(args.section.as_str(), "user") {
        "/user"
    } else if eq_ignore_ascii_case(args.section.as_str(), "video") {
        "/video"
    } else {
        ""
    }
}

/// The scraper job for a search command.
pub fn run(args: &SearchArgs) -> (res: Result<ScrapeJob, Error>)
    ensures
        run_post(*args, res),
{
    let queries = split_list(args.queries.as_str());
    if queries.len() == 0 {
        return Err(Error::invalid(owned("At least one search query is required.")));
    }
    let chosen_section = section(args);
    let targets = queries.len();
    let mut body = json::new_map();
    json::insert(&mut body, owned("searchQueries"), json::strings(queries));
    json::insert(&mut body, owned("resultsPerPage"), json::count(args.limit));
    json::insert(&mut body, owned("searchSection"), json::string(owned(chosen_section)));
    let for_users = args.users || eq_ignore_ascii_case(args.section.as_str(), "user");
    proof {
        reveal_strlit("/user");
        reveal_strlit("/video");
        reveal_strlit("");
        assert("/video"@.len() != "/user"@.len());
        assert(for_users <==> search_section(*args) == "/user"@);
    }
    let profiles: Option<usize> = match args.profiles {
        Some(n) => Some(n),
        None => if for_users {
            Some(10)
        } else {
            None
        },
    };
    insert_count(&mut body, "maxProfilesPerQuery", profiles);
    insert_count(&mut body, "commentsPerPost", args.comments);
    Ok(
        ScrapeJob {
            body: json::object(body),
            targets,
            progress: progress("Searching ", targets, " query/queries (this may take a while)..."),
        },
    )
}

} // verus!
