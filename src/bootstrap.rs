//! The session bootstrap: restore a stored session, or log in once and
//! let the client store the new session; then sync.

use vstd::prelude::*;

verus! {

/// Where the bootstrap stands.
#[derive(PartialEq, Eq, Structural, Debug, Clone, Copy)]
pub enum BootState {
    /// Waiting to learn whether the store holds a session.
    CheckingSession,
    /// Waiting for the interactive login to finish.
    LoggingIn,
    /// Running the sync loop.
    Syncing,
    /// Stopped on a fatal startup error.
    Aborted,
}

/// What the client reports back.
#[derive(PartialEq, Eq, Structural, Debug, Clone, Copy)]
pub enum BootEvent {
    /// Whether a session was found in the store.
    SessionChecked(bool),
    /// Whether the login succeeded.
    LoginFinished(bool),
}

/// What the client is to do next.
#[derive(PartialEq, Eq, Structural, Debug, Clone, Copy)]
pub enum BootAction {
    /// Log in with the configured credentials.
    Login,
    /// Register the handlers and start the sync loop.
    StartSync,
    /// Stop the process with a diagnostic.
    Abort,
    /// Nothing: the event does not belong to the current state.
    Nothing,
}

/// One step of the bootstrap.
pub open spec fn boot_step_spec(state: BootState, event: BootEvent) -> (BootState, BootAction) {
    match (state, event) {
        (BootState::CheckingSession, BootEvent::SessionChecked(true)) => (
            BootState::Syncing,
            BootAction::StartSync,
        ),
        (BootState::CheckingSession, BootEvent::SessionChecked(false)) => (
            BootState::LoggingIn,
            BootAction::Login,
        ),
        (BootState::LoggingIn, BootEvent::LoginFinished(true)) => (
            BootState::Syncing,
            BootAction::StartSync,
        ),
        (BootState::LoggingIn, BootEvent::LoginFinished(false)) => (
            BootState::Aborted,
            BootAction::Abort,
        ),
        _ => (state, BootAction::Nothing),
    }
}

/// The state every process starts in.
pub fn boot_start() -> (r: BootState)
    ensures
        r == BootState::CheckingSession,
{
    BootState::CheckingSession
}

/// Takes one step of the bootstrap on the client's report.
pub fn boot_step(state: BootState, event: BootEvent) -> (r: (BootState, BootAction))
    ensures
        r == boot_step_spec(state, event),
{
    match (state, event) {
        (BootState::CheckingSession, BootEvent::SessionChecked(found)) => if found {
            (BootState::Syncing, BootAction::StartSync)
        } else {
            (BootState::LoggingIn, BootAction::Login)
        },
        (BootState::LoggingIn, BootEvent::LoginFinished(ok)) => if ok {
            (BootState::Syncing, BootAction::StartSync)
        } else {
            (BootState::Aborted, BootAction::Abort)
        },
        _ => (state, BootAction::Nothing),
    }
}

/// What one run of the process does to the store.
pub struct BootRun {
    /// How many times it logged in.
    pub logins: nat,
    /// Whether the store holds a session afterwards.
    pub session_after: bool,
    /// Where the bootstrap ended.
    pub state: BootState,
}

/// One run of the bootstrap on a store that holds a session (`present`) or
/// not, where a login, if one is made, succeeds (`login_ok`) or not. A
/// successful login leaves the new session in the store.
pub open spec fn boot_run(present: bool, login_ok: bool) -> BootRun {
    let (s1, a1) = boot_step_spec(BootState::CheckingSession, BootEvent::SessionChecked(present));
    if a1 == BootAction::Login {
        let (s2, a2) = boot_step_spec(s1, BootEvent::LoginFinished(login_ok));
        BootRun { logins: 1, session_after: login_ok, state: s2 }
    } else {
        BootRun { logins: 0, session_after: present, state: s1 }
    }
}

/// Where the store already holds a session, startup never logs in; and two
/// runs against the same store log in at most once in all, provided the
/// first run did not abort.
pub proof fn lemma_bootstrap_idempotent(present: bool, first_ok: bool, second_ok: bool)
    requires
        boot_run(present, first_ok).state != BootState::Aborted,
    ensures
        present ==> boot_run(present, first_ok).logins == 0,
        boot_run(present, first_ok).logins + boot_run(
            boot_run(present, first_ok).session_after,
            second_ok,
        ).logins <= 1,
{
}

} // verus!
