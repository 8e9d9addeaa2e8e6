//! The user-directory search.
//!
//! The search itself runs on the protocol engine; this module decides,
//! locally and before any remote call, whether a search may proceed, and
//! shapes the engine's answer for the consumer.

use crate::errors::CoreError;
use crate::sync_service::App;
use vstd::prelude::*;

verus! {

/// One user of the directory, as handed to the consumer.
#[derive(Debug)]
pub struct User {
    pub user_id: String,
    pub display_name: Option<String>,
    pub avatar_url: Option<String>,
}

/// A directory search's answer: the users found, and whether the result was
/// truncated at the cap.
#[derive(Debug)]
pub struct UserSearchResult {
    pub users: Vec<User>,
    pub limited: bool,
}

/// The cap on results requested from the engine's user directory.
pub const USER_SEARCH_LIMIT: u64 = 100;

/// Decide whether a directory search may proceed: it needs a configured
/// session and a non-empty query, both checked before any remote call. On
/// success the cap to request from the engine is returned; the host performs
/// the search and shapes its answer with [`collect_user_search`].
pub fn search_users(app: &App, query: &String) -> (r: Result<u64, CoreError>)
    ensures
        r == (if app.config is None {
            Err::<u64, CoreError>(CoreError::NotInitialized)
        } else if query@.len() == 0 {
            Err::<u64, CoreError>(CoreError::MalformedInput)
        } else {
            Ok::<u64, CoreError>(USER_SEARCH_LIMIT as u64)
        }),
{
    if app.config.is_none() {
        Err(CoreError::NotInitialized)
    } else if query.as_str().is_empty() {
        Err(CoreError::MalformedInput)
    } else {
        Ok(USER_SEARCH_LIMIT)
    }
}

/// Shape the engine's answer: each found user's identifier, display name
/// and avatar address, in the order returned, and whether the result list
/// was truncated.
pub fn collect_user_search(
    results: Vec<(String, Option<String>, Option<String>)>,
    limited: bool,
) -> (r: UserSearchResult)
    ensures
        r.limited == limited,
        r.users@.len() == results@.len(),
        forall|i: int|
            0 <= i < results@.len() ==> {
                &&& (#[trigger] r.users@[i]).user_id == results@[i].0
                &&& r.users@[i].display_name == results@[i].1
                &&& r.users@[i].avatar_url == results@[i].2
            },
{
    let mut users: Vec<User> = Vec::new();
    let mut i: usize = 0;
    while i < results.len()
        invariant
            i <= results@.len(),
            users@.len() == i,
            forall|j: int|
                0 <= j < i ==> {
                    &&& (#[trigger] users@[j]).user_id == results@[j].0
                    &&& users@[j].display_name == results@[j].1
                    &&& users@[j].avatar_url == results@[j].2
                },
        decreases results@.len() - i,
    {
        let entry = &results[i];
        users.push(
            User {
                user_id: entry.0.clone(),
                display_name: crate::text::clone_opt_string(&entry.1),
                avatar_url: crate::text::clone_opt_string(&entry.2),
            },
        );
        i = i + 1;
    }
    UserSearchResult { users, limited }
}

} // verus!
