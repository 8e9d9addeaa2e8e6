//! The session registry: the single authenticated session of the process.
//!
//! At most one session exists. It is created by a one-time, idempotent
//! configuration call and returned to the unauthenticated state by an
//! explicit sign-out. Every other component treats "no session" as a valid,
//! checkable state. The protocol engine performs the actual connection,
//! authentication and credential storage; the functions here decide, from
//! the registry state, whether those calls may proceed, and apply their
//! reported outcomes.

use crate::errors::CoreError;
use crate::status::Status;
use crate::sync_service::App;
use crate::sync_service::SyncStatus;
use crate::timelines::Timelines;
use vstd::prelude::*;

verus! {

/// The consumer-facing session configuration: the homeserver to talk to and
/// where to keep local storage.
#[derive(Debug)]
pub struct MatrixClientConfig {
    pub homeserver_url: String,
    pub storage_path: String,
}

impl Clone for MatrixClientConfig {
    fn clone(&self) -> (r: Self)
        ensures
            r == *self,
    {
        MatrixClientConfig {
            homeserver_url: self.homeserver_url.clone(),
            storage_path: self.storage_path.clone(),
        }
    }
}

/// Everything a session is built with: storage location, homeserver
/// address, optional trusted root certificates (each in binary form) and an
/// optional proxy address.
#[derive(Debug)]
pub struct ClientConfig {
    pub session_path: String,
    pub homeserver_url: String,
    pub root_certificates: Option<Vec<Vec<u8>>>,
    pub proxy: Option<String>,
}

/// Configure the session so it is ready for syncing: idempotent. If a
/// session already exists the call succeeds immediately without rebuilding
/// it — observable in that `build_count` does not move. Otherwise the
/// configuration is installed, unauthenticated, and the caller is expected
/// to build the engine client and then report the credential restore through
/// [`session_restored`], or a failed build through [`configure_failed`].
pub fn configure_client(app: &mut App, config: ClientConfig) -> (r: Result<bool, CoreError>)
    requires
        old(app).build_count < u64::MAX,
    ensures
        r == Ok::<bool, CoreError>(true),
        old(app).config is Some ==> *final(app) == *old(app),
        old(app).config is None ==> *final(app) == (App {
            config: Some(config),
            authenticated: false,
            build_count: (old(app).build_count + 1) as u64,
            ..*old(app)
        }),
{
    if app.config.is_some() {
        return Ok(true);
    }
    app.config = Some(config);
    app.authenticated = false;
    app.build_count = app.build_count + 1;
    Ok(true)
}

/// The engine failed to build the client for a configuration that was just
/// installed: return the registry to the unconfigured state.
pub fn configure_failed(app: &mut App)
    ensures
        *final(app) == (App { config: None, authenticated: false, ..*old(app) }),
{
    app.config = None;
    app.authenticated = false;
}

/// The store reported whether a previously persisted credential could be
/// restored for the configured session.
pub fn session_restored(app: &mut App, authenticated: bool)
    ensures
        old(app).config is Some ==> *final(app) == (App { authenticated, ..*old(app) }),
        old(app).config is None ==> *final(app) == *old(app),
{
    if app.config.is_some() {
        app.authenticated = authenticated;
    }
}

/// Decide whether a sign-in may proceed: it needs a configured session.
/// The caller performs the engine's authentication call and reports its
/// outcome through [`login_completed`].
pub fn login(app: &App, _username: &String, _password: &String) -> (r: Result<bool, CoreError>)
    ensures
        r == (if app.config is Some {
            Ok::<bool, CoreError>(true)
        } else {
            Err::<bool, CoreError>(CoreError::NotInitialized)
        }),
{
    if app.config.is_some() {
        Ok(true)
    } else {
        Err(CoreError::NotInitialized)
    }
}

/// Decide whether a registration may proceed; the same rule as [`login`].
pub fn register(app: &App, username: &String, password: &String) -> (r: Result<bool, CoreError>)
    ensures
        r == (if app.config is Some {
            Ok::<bool, CoreError>(true)
        } else {
            Err::<bool, CoreError>(CoreError::NotInitialized)
        }),
{
    login(app, username, password)
}

/// Apply the engine's answer to a sign-in or registration attempt. On
/// success the session holds a valid credential; on failure the registry is
/// left as it was and the failure is reported as a protocol failure.
pub fn login_completed(app: &mut App, succeeded: bool) -> (r: Result<bool, CoreError>)
    ensures
        old(app).config is None ==> r == Err::<bool, CoreError>(CoreError::NotInitialized) && *final(app) == *old(app),
        old(app).config is Some && succeeded ==> r == Ok::<bool, CoreError>(true) && *final(app)
            == (App { authenticated: true, ..*old(app) }),
        old(app).config is Some && !succeeded ==> r == Err::<bool, CoreError>(
            CoreError::ProtocolFailure,
        ) && *final(app) == *old(app),
{
    if app.config.is_none() {
        return Err(CoreError::NotInitialized);
    }
    if succeeded {
        app.authenticated = true;
        Ok(true)
    } else {
        Err(CoreError::ProtocolFailure)
    }
}

/// Decide whether a sign-out may proceed: without a session it fails with
/// `NotInitialized` instead of crashing. The caller invalidates the remote
/// session and reports the outcome through [`logout_completed`].
pub fn logout(app: &App) -> (r: Result<bool, CoreError>)
    ensures
        r == (if app.config is Some {
            Ok::<bool, CoreError>(true)
        } else {
            Err::<bool, CoreError>(CoreError::NotInitialized)
        }),
{
    if app.config.is_some() {
        Ok(true)
    } else {
        Err(CoreError::NotInitialized)
    }
}

/// Apply the engine's answer to a sign-out. On success the whole registry
/// is cleared: the session is gone, the room registry and every timeline
/// (with its listener) are dropped, the status slot is emptied and the
/// aggregate counters return to zero. On failure everything stays.
pub fn logout_completed(app: &mut App, succeeded: bool) -> (r: Result<bool, CoreError>)
    requires
        old(app).wf(),
    ensures
        final(app).wf(),
        old(app).config is None ==> r == Err::<bool, CoreError>(CoreError::NotInitialized) && *final(app) == *old(app),
        old(app).config is Some && !succeeded ==> r == Err::<bool, CoreError>(
            CoreError::ProtocolFailure,
        ) && *final(app) == *old(app),
        old(app).config is Some && succeeded ==> {
            &&& r == Ok::<bool, CoreError>(true)
            &&& final(app).config is None
            &&& !final(app).authenticated
            &&& final(app).room_list.rooms@.len() == 0
            &&& final(app).room_list.room_infos@.len() == 0
            &&& final(app).timelines.entries@.len() == 0
            &&& final(app).status.last_status_message is None
            &&& final(app).sync_status == SyncStatus::zeroed_spec()
            &&& final(app).build_count == old(app).build_count
        },
{
    if app.config.is_none() {
        return Err(CoreError::NotInitialized);
    }
    if !succeeded {
        return Err(CoreError::ProtocolFailure);
    }
    app.config = None;
    app.authenticated = false;
    app.room_list.rooms = Vec::new();
    app.room_list.room_infos = Vec::new();
    app.timelines = Timelines::new();
    app.status = Status::new();
    app.sync_status = SyncStatus::zeroed();
    Ok(true)
}

/// Whether the session holds a valid credential; `false` when no session is
/// configured at all.
pub fn is_client_authenticated(app: &App) -> (r: Result<bool, CoreError>)
    ensures
        r == (if app.config is Some {
            Ok::<bool, CoreError>(app.authenticated)
        } else {
            Ok::<bool, CoreError>(false)
        }),
{
    if app.config.is_some() {
        Ok(app.authenticated)
    } else {
        Ok(false)
    }
}

} // verus!
