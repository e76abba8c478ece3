//! Where a command's credentials come from: a key given on the command line, a stored
//! account, or the environment (`APIFY_TOKEN`, then `TIKTOK_API_KEY`).

use vstd::prelude::*;
use crate::cli::AuthArgs;
use crate::error::{Error, ErrorCode, ErrorView};
use crate::text::{lemma_trim_idempotent, opt_text, owned, trim, trimmed};

verus! {

/// Where the API key for a command comes from.
#[derive(Debug)]
pub enum Credentials {
    /// A key given directly (flag or environment), trimmed.
    Key(String),
    /// The key stored for the named account.
    Account(String),
}

/// A key that is present and not blank, trimmed.
pub open spec fn usable_key(k: Option<Seq<char>>) -> Option<Seq<char>> {
    match k {
        Some(t) => if trim(t).len() > 0 {
            Some(trim(t))
        } else {
            None
        },
        None => None,
    }
}

/// The credentials chosen, by precedence: `--api-key`, then `--account`, then
/// `APIFY_TOKEN`, then `TIKTOK_API_KEY`; blank keys count as absent.
pub open spec fn chosen(
    api_key: Option<Seq<char>>,
    account: Option<Seq<char>>,
    apify_token: Option<Seq<char>>,
    tiktok_api_key: Option<Seq<char>>,
) -> Option<(bool, Seq<char>)> {
    if usable_key(api_key) is Some {
        Some((true, usable_key(api_key)->0))
    } else if account is Some {
        Some((false, account->0))
    } else if usable_key(apify_token) is Some {
        Some((true, usable_key(apify_token)->0))
    } else if usable_key(tiktok_api_key) is Some {
        Some((true, usable_key(tiktok_api_key)->0))
    } else {
        None
    }
}

/// A key counts only when it is present and not blank: `--api-key` wins over everything
/// else, then `--account`, then `APIFY_TOKEN`, then `TIKTOK_API_KEY`; a blank value is passed
/// over as if it were unset; a chosen key is trimmed and not empty; with none of them there
/// are no credentials.
pub proof fn lemma_credential_precedence(
    api_key: Option<Seq<char>>,
    account: Option<Seq<char>>,
    apify_token: Option<Seq<char>>,
    tiktok_api_key: Option<Seq<char>>,
)
    ensures
        api_key matches Some(k) ==> trim(k).len() > 0 ==> chosen(
            api_key,
            account,
            apify_token,
            tiktok_api_key,
        ) == Some((true, trim(k))),
        api_key matches Some(k) ==> trim(k).len() == 0 ==> chosen(
            api_key,
            account,
            apify_token,
            tiktok_api_key,
        ) == chosen(None, account, apify_token, tiktok_api_key),
        account matches Some(a) ==> chosen(None, account, apify_token, tiktok_api_key) == Some(
            (false, a),
        ),
        apify_token matches Some(k) ==> trim(k).len() > 0 ==> chosen(
            None,
            None,
            apify_token,
            tiktok_api_key,
        ) == Some((true, trim(k))),
        apify_token matches Some(k) ==> trim(k).len() == 0 ==> chosen(
            None,
            None,
            apify_token,
            tiktok_api_key,
        ) == chosen(None, None, None, tiktok_api_key),
        tiktok_api_key matches Some(k) ==> trim(k).len() > 0 ==> chosen(
            None,
            None,
            None,
            tiktok_api_key,
        ) == Some((true, trim(k))),
        tiktok_api_key matches Some(k) ==> trim(k).len() == 0 ==> chosen(
            None,
            None,
            None,
            tiktok_api_key,
        ) is None,
        chosen(None, None, None, None) is None,
        chosen(api_key, account, apify_token, tiktok_api_key) matches Some((is_key, k)) ==> is_key
            ==> k.len() > 0 && trim(k) == k,
{
    if let Some(k) = api_key {
        lemma_trim_idempotent(k);
    }
    if let Some(k) = apify_token {
        lemma_trim_idempotent(k);
    }
    if let Some(k) = tiktok_api_key {
        lemma_trim_idempotent(k);
    }
}

/// The view of chosen credentials: whether it is a key, and the key or account name.
pub open spec fn credentials_view(c: Credentials) -> (bool, Seq<char>) {
    match c {
        Credentials::Key(k) => (true, k@),
        Credentials::Account(a) => (false, a@),
    }
}

fn usable(k: &Option<String>) -> (res: Option<String>)
    ensures
        opt_text(res) == usable_key(opt_text(*k)),
{
    match k {
        Some(t) => {
            let r = trimmed(t.as_str());
            if r.as_str().is_empty() {
                None
            } else {
                Some(r)
            }
        },
        None => None,
    }
}

/// Chooses the credentials of a command from its flags and the environment values
/// (`None` where unset); the `no_account` error of `no_credentials` when there are none.
pub fn resolve(auth: &AuthArgs, apify_token: Option<String>, tiktok_api_key: Option<String>) -> (res:
    Result<Credentials, Error>)
    ensures
        match (res, chosen(
            opt_text(auth.api_key),
            opt_text(auth.account),
            opt_text(apify_token),
            opt_text(tiktok_api_key),
        )) {
            (Ok(c), Some(v)) => credentials_view(c) == v,
            (Err(e), None) => e@ == no_credentials_view(),
            _ => false,
        },
{
    match usable(&auth.api_key) {
        Some(k) => return Ok(Credentials::Key(k)),
        None => {},
    }
    match &auth.account {
        Some(a) => return Ok(Credentials::Account(a.clone())),
        None => {},
    }
    match usable(&apify_token) {
        Some(k) => return Ok(Credentials::Key(k)),
        None => {},
    }
    match usable(&tiktok_api_key) {
        Some(k) => Ok(Credentials::Key(k)),
        None => Err(no_credentials()),
    }
}

/// The error for a command without credentials.
pub open spec fn no_credentials_view() -> ErrorView {
    ErrorView::plain(
        ErrorCode::NoAccount,
        "No API key or account was given, and none is configured."@,
    ).with_fix("Run 'tiktok login', pass --account <name> or --api-key <key>, or set APIFY_TOKEN."@)
}

/// The error when a command has no credentials at all.
pub fn no_credentials() -> (res: Error)
    ensures
        res@ == no_credentials_view(),
{
    Error::new(
        ErrorCode::NoAccount,
        owned("No API key or account was given, and none is configured."),
    ).fix(owned("Run 'tiktok login', pass --account <name> or --api-key <key>, or set APIFY_TOKEN."))
}

/// The text that describes the stored accounts, for error details: their names in order,
/// comma-separated, or a note that there are none.
pub open spec fn described(names: Seq<Seq<char>>) -> Seq<char>
    decreases names.len(),
{
    if names.len() == 0 {
        "No accounts are configured."@
    } else if names.len() == 1 {
        "Configured accounts: "@ + names[0]
    } else {
        described(names.drop_last()) + ", "@ + names.last()
    }
}

/// Describes the stored accounts for error details.
pub fn describe(names: &Vec<String>) -> (res: String)
    ensures
        res@ == described(names.deep_view()),
{
    if names.len() == 0 {
        return owned("No accounts are configured.");
    }
    let mut text = owned("Configured accounts: ");
    text.append(names[0].as_str());
    let mut i: usize = 1;
    while i < names.len()
        invariant
            1 <= i <= names.len(),
            text@ == described(names.deep_view().take(i as int)),
        decreases names.len() - i,
    {
        proof {
            let dv = names.deep_view();
            assert(dv.take(i + 1).drop_last() =~= dv.take(i as int));
        }
        text.append(", ");
        text.append(names[i].as_str());
        i = i + 1;
    }
    assert(names.deep_view().take(names.len() as int) =~= names.deep_view());
    text
}

} // verus!
