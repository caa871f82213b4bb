//! The requests that fetch a page of changes from the server.
use vstd::prelude::*;
use crate::sync::error::SyncError;
use crate::text::{decimal, decimal_string};

verus! {

/// How many changes a page asks for.
pub const DEFAULT_PAGE_SIZE: usize = 100;

/// The address of the page of collections changed since `since`.
pub open spec fn collections_page_address(base_url: Seq<char>, since: i64) -> Seq<char> {
    base_url + "/api/sync/collections?since="@ + decimal(since as int) + "&limit="@ + decimal(
        DEFAULT_PAGE_SIZE as int,
    )
}

/// The address of the page of a collection's files changed since `since`.
pub open spec fn files_page_address(base_url: Seq<char>, collection_id: Seq<char>, since: i64) -> Seq<char> {
    base_url + "/api/sync/files?collection_id="@ + collection_id + "&since="@ + decimal(since as int)
        + "&limit="@ + decimal(DEFAULT_PAGE_SIZE as int)
}

/// The address of the page of trash changes since `since`.
pub open spec fn trash_page_address(base_url: Seq<char>, since: i64) -> Seq<char> {
    base_url + "/api/sync/trash?since="@ + decimal(since as int) + "&limit="@ + decimal(
        DEFAULT_PAGE_SIZE as int,
    )
}

/// `since` and the page size as the tail of a query: "since=N&limit=M".
fn since_and_limit(url: &mut String, since: i64)
    ensures
        final(url)@ == old(url)@ + "since="@ + decimal(since as int) + "&limit="@ + decimal(DEFAULT_PAGE_SIZE as int),
{
    url.append("since=");
    let since_text = decimal_string(since as i128);
    url.append(since_text.as_str());
    url.append("&limit=");
    let limit_text = decimal_string(DEFAULT_PAGE_SIZE as i128);
    url.append(limit_text.as_str());
}

/// The address of the page of collections changed since `since`.
pub fn collections_page_url(base_url: &str, since: i64) -> (url: String)
    ensures
        url@ == collections_page_address(base_url@, since),
{
    let mut url = String::from_str(base_url);
    url.append("/api/sync/collections?");
    since_and_limit(&mut url, since);
    proof {
        reveal_strlit("/api/sync/collections?");
        reveal_strlit("since=");
        reveal_strlit("/api/sync/collections?since=");
        assert(url@ =~= collections_page_address(base_url@, since));
    }
    url
}

/// The address of the page of a collection's files changed since `since`.
pub fn files_page_url(base_url: &str, collection_id: &str, since: i64) -> (url: String)
    ensures
        url@ == files_page_address(base_url@, collection_id@, since),
{
    let mut url = String::from_str(base_url);
    url.append("/api/sync/files?collection_id=");
    url.append(collection_id);
    url.append("&");
    since_and_limit(&mut url, since);
    proof {
        reveal_strlit("&");
        reveal_strlit("since=");
        reveal_strlit("&since=");
        assert(url@ =~= files_page_address(base_url@, collection_id@, since));
    }
    url
}

/// The address of the page of trash changes since `since`.
pub fn trash_page_url(base_url: &str, since: i64) -> (url: String)
    ensures
        url@ == trash_page_address(base_url@, since),
{
    let mut url = String::from_str(base_url);
    url.append("/api/sync/trash?");
    since_and_limit(&mut url, since);
    proof {
        reveal_strlit("/api/sync/trash?");
        reveal_strlit("since=");
        reveal_strlit("/api/sync/trash?since=");
        assert(url@ =~= trash_page_address(base_url@, since));
    }
    url
}

/// The session token a request is made with, or, when there is none, the
/// error "not authenticated".
pub fn session_token_or_error(token: Option<String>) -> (r: Result<String, SyncError>)
    ensures
        match token {
            Some(t) => r == Ok::<String, SyncError>(t),
            None => r matches Err(SyncError::NetworkError(m)) && m@ == "not authenticated"@,
        },
{
    match token {
        Some(t) => Ok(t),
        None => Err(SyncError::NetworkError(String::from_str("not authenticated"))),
    }
}

} // verus!
