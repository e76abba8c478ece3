# tiktok

Core of the `tiktok` command-line tool, which scrapes TikTok profiles, hashtags, searches
and videos through the Apify TikTok scraper actor.

- `src/` is the library, verified with Verus: the command-line model (`cli`), comma-separated
  argument lists and text handling (`text`), the scraper input of each command
  (`commands::{profile, hashtag, search, video}`), account-management decisions and reports
  (`commands::accounts`, `account`), the API client's requests, response reading and error
  classification (`client`), errors and their exit statuses (`error`), the agent manual
  (`readme`), and the JSON values exchanged with the API (`json`).
- `app/` is the program around it: argument parsing with clap, HTTP with ureq, the
  configuration and key files, prompts, and printing.
- `tests/` exercises the library on concrete inputs.
