use vstd::prelude::*;

use crate::errors::RemoteError;
use crate::file::{DownloadFile, FileMeta, clone_files, metas_of};
use crate::fingerprint::{fingerprint_files, spec_fingerprint};

verus! {

/// The cached state: one fully populated, immutable capture of the file
/// index, stamped with its creation time in seconds since the Unix epoch.
pub struct Cache {
    pub time: i64,
    pub files: Vec<DownloadFile>,
}

/// The session slot's states: absent until first use, then live with an
/// opaque handle token that the application maps to the real connection.
/// A live handle is trusted until an operation using it fails; the failing
/// caller then resets the slot and runs the login flow again.
#[derive(Clone, Copy, Debug, PartialEq, Eq, Structural)]
pub enum SessionState {
    Absent,
    Live(u64),
}

/// The index cache plus the lazy session slot.  All read access to "what
/// files exist" and "how do I download file N" passes through this type;
/// the surrounding application performs the remote I/O and feeds each
/// outcome back in.
pub struct ClientWrapper {
    /// Seconds a snapshot stays fresh; fifteen minutes by default,
    /// configurable for callers that need another window.
    pub ttl_seconds: i64,
    /// The sources to enumerate on a refresh, by their stable identifiers,
    /// in the fixed order a refresh scans them.
    pub desired_chats: Vec<i64>,
    cached_files: Option<Cache>,
    client: SessionState,
}

impl ClientWrapper {
    /// Seconds a snapshot stays fresh.
    pub closed spec fn spec_ttl(self) -> i64 {
        self.ttl_seconds
    }

    /// The configured sources, in scan order.
    pub closed spec fn chats(self) -> Seq<i64> {
        self.desired_chats@
    }

    /// Whether a snapshot is installed at all.
    pub closed spec fn has_snapshot(self) -> bool {
        self.cached_files is Some
    }

    /// The installed snapshot's capture time.
    pub closed spec fn snapshot_time(self) -> i64 {
        match self.cached_files {
            Some(c) => c.time,
            None => 0,
        }
    }

    /// The installed snapshot's entries, by content.
    pub closed spec fn snapshot_metas(self) -> Seq<FileMeta> {
        match self.cached_files {
            Some(c) => metas_of(c.files@),
            None => Seq::empty(),
        }
    }

    /// The session slot's state.
    pub closed spec fn session(self) -> SessionState {
        self.client
    }

    /// Whether a handle is live.
    pub open spec fn session_live(self) -> bool {
        self.session() is Live
    }

    /// A snapshot exists and is younger than the TTL at instant `now`.
    pub open spec fn fresh_at(self, now: i64) -> bool {
        self.has_snapshot() && now - self.snapshot_time() <= self.spec_ttl()
    }

    /// What serving the index from the cache at instant `now` must return:
    /// nothing when no fresh snapshot exists (the caller must refresh),
    /// otherwise the snapshot's entries and its fingerprint.
    pub open spec fn cached_result_matches(
        self,
        now: i64,
        r: Option<(Vec<DownloadFile>, u64)>,
    ) -> bool {
        &&& (r is Some <==> self.fresh_at(now))
        &&& (match r {
            Some((files, fp)) => metas_of(files@) == self.snapshot_metas() && fp
                == spec_fingerprint(self.snapshot_time(), self.snapshot_metas()),
            None => true,
        })
    }

    /// A fresh cache: no snapshot yet, no session handle yet.
    pub fn new(ttl_seconds: i64, desired_chats: Vec<i64>) -> (r: Self)
        ensures
            r.spec_ttl() == ttl_seconds,
            r.chats() == desired_chats@,
            !r.has_snapshot(),
            r.session() == SessionState::Absent,
    {
        ClientWrapper { ttl_seconds, desired_chats, cached_files: None, client: SessionState::Absent }
    }

    /// The fast path of `get_index`: serves the snapshot when one exists
    /// and is younger than the TTL, and otherwise tells the caller to
    /// refresh.  Reads the cache only; never changes any state.
    pub fn get_cached_files(&self, now: i64) -> (r: Option<(Vec<DownloadFile>, u64)>)
        ensures
            self.cached_result_matches(now, r),
    {
        match &self.cached_files {
            Some(cache) => {
                if (now as i128) - (cache.time as i128) > (self.ttl_seconds as i128) {
                    None
                } else {
                    let files = clone_files(&cache.files);
                    let fp = fingerprint_files(cache.time, &cache.files);
                    Some((files, fp))
                }
            },
            None => None,
        }
    }

    /// As `get_cached_files`, against the clock's own reading of the
    /// current instant.
    pub fn get_cached_files_now(&self) -> (r: Option<(Vec<DownloadFile>, u64)>)
        ensures
            exists|t: i64| self.cached_result_matches(t, r),
    {
        let now = current_unix_time();
        let r = self.get_cached_files(now);
        proof {
            assert(self.cached_result_matches(now, r));
        }
        r
    }

    /// Installs a fully scanned entry list as the new snapshot, replacing
    /// any prior one atomically, and returns the new fingerprint.
    pub fn update_cache(&mut self, files: Vec<DownloadFile>, now: i64) -> (h: u64)
        ensures
            final(self).has_snapshot(),
            final(self).snapshot_time() == now,
            final(self).snapshot_metas() == metas_of(files@),
            final(self).spec_ttl() == old(self).spec_ttl(),
            final(self).chats() == old(self).chats(),
            final(self).session() == old(self).session(),
            h == spec_fingerprint(now, metas_of(files@)),
    {
        let h = fingerprint_files(now, &files);
        self.cached_files = Some(Cache { time: now, files });
        h
    }

    /// Takes the outcome of one full refresh scan, performed by the
    /// application at instant `now`.
    ///
    /// On success the scanned entries become the new snapshot and are
    /// returned together with its fingerprint.  On failure nothing is
    /// installed: the previous snapshot — even an expired one — is left
    /// untouched, and the error is surfaced unchanged to the caller.
    pub fn apply_refresh(
        &mut self,
        outcome: Result<Vec<DownloadFile>, RemoteError>,
        now: i64,
    ) -> (r: Result<(Vec<DownloadFile>, u64), RemoteError>)
        ensures
            final(self).spec_ttl() == old(self).spec_ttl(),
            final(self).chats() == old(self).chats(),
            final(self).session() == old(self).session(),
            outcome matches Err(e) ==> r == Err::<(Vec<DownloadFile>, u64), RemoteError>(e)
                && *final(self) == *old(self),
            outcome matches Ok(files) ==> ({
                &&& final(self).has_snapshot()
                &&& final(self).snapshot_time() == now
                &&& final(self).snapshot_metas() == metas_of(files@)
                &&& (r matches Ok((out, fp)) && metas_of(out@) == metas_of(files@) && fp
                    == spec_fingerprint(now, metas_of(files@)))
            }),
    {
        match outcome {
            Ok(files) => {
                let out = clone_files(&files);
                let h = self.update_cache(files, now);
                Ok((out, h))
            },
            Err(e) => Err(e),
        }
    }

    /// What the handle-acquisition fast path returns: the live handle, or
    /// nothing when the slot is absent and a login is needed.
    pub open spec fn spec_client(self) -> Option<u64> {
        match self.session() {
            SessionState::Live(h) => Some(h),
            SessionState::Absent => None,
        }
    }

    /// The handle-acquisition fast path: hands out the live handle without
    /// any health check, and asks for a login (`None`) only when the slot
    /// is absent.
    pub fn get_client(&self) -> (r: Option<u64>)
        ensures
            r == self.spec_client(),
    {
        match &self.client {
            SessionState::Live(h) => Some(*h),
            SessionState::Absent => None,
        }
    }

    /// Installs the handle a completed login flow produced; the winner of
    /// a concurrent first use installs for everyone.
    pub fn install_client(&mut self, handle: u64)
        ensures
            final(self).session() == SessionState::Live(handle),
            final(self).spec_ttl() == old(self).spec_ttl(),
            final(self).chats() == old(self).chats(),
            final(self).has_snapshot() == old(self).has_snapshot(),
            final(self).snapshot_time() == old(self).snapshot_time(),
            final(self).snapshot_metas() == old(self).snapshot_metas(),
    {
        self.client = SessionState::Live(handle);
    }

    /// Discards the current handle wholesale after a failure signalled it
    /// stale; the next acquisition runs the login flow again.
    pub fn reset_client(&mut self)
        ensures
            final(self).session() == SessionState::Absent,
            final(self).spec_ttl() == old(self).spec_ttl(),
            final(self).chats() == old(self).chats(),
            final(self).has_snapshot() == old(self).has_snapshot(),
            final(self).snapshot_time() == old(self).snapshot_time(),
            final(self).snapshot_metas() == old(self).snapshot_metas(),
    {
        self.client = SessionState::Absent;
    }
}

/// Where one run of the login flow stands.  The flow starts at `Start`,
/// ends at `Complete` (a handle is ready to install) or `Failed` (the
/// error to surface), and moves only on the outcome of the action that
/// `spec_login_action` prescribes for its current state.
#[derive(Clone, Copy, Debug, PartialEq, Eq, Structural)]
pub enum LoginState {
    /// Nothing done yet: the transport connection comes first.
    Start,
    /// Connected; whether the stored session is authorized is unknown.
    Connected,
    /// The stored session is unauthorized: a one-time code must be
    /// requested.
    NeedCode,
    /// The code was sent; the flow waits for the user to supply it and
    /// for the interactive sign-in to run.
    CodeRequested,
    /// Signed in; the new session must still be persisted.
    SignedIn,
    /// The login sequence finished: a live handle is ready.
    Complete,
    /// The login sequence aborted with this error.
    Failed(RemoteError),
}

/// What the application reported back after performing one login action.
#[derive(Clone, Copy, Debug, PartialEq, Eq, Structural)]
pub enum LoginEvent {
    ConnectOk,
    ConnectFailed,
    Authorized,
    Unauthorized,
    AuthCheckFailed,
    CodeSent,
    CodeRequestFailed,
    SignInOk,
    SignInFailed,
    SessionSaved,
    SaveFailed,
}

/// The one remote or local action the application must perform next.
#[derive(Clone, Copy, Debug, PartialEq, Eq, Structural)]
pub enum LoginAction {
    Connect,
    CheckAuthorization,
    RequestLoginCode,
    SignIn,
    SaveSession,
    InstallHandle,
    Report(RemoteError),
}

/// The login flow's transition table.  A sign-in rejection is an
/// authorization failure; every other rejection, and any event the current
/// state does not expect, aborts the flow as a remote I/O failure.  The
/// two terminal states never move again.
pub open spec fn spec_login_step(s: LoginState, e: LoginEvent) -> LoginState {
    match (s, e) {
        (LoginState::Start, LoginEvent::ConnectOk) => LoginState::Connected,
        (LoginState::Connected, LoginEvent::Authorized) => LoginState::Complete,
        (LoginState::Connected, LoginEvent::Unauthorized) => LoginState::NeedCode,
        (LoginState::NeedCode, LoginEvent::CodeSent) => LoginState::CodeRequested,
        (LoginState::CodeRequested, LoginEvent::SignInOk) => LoginState::SignedIn,
        (LoginState::CodeRequested, LoginEvent::SignInFailed) => LoginState::Failed(
            RemoteError::Auth,
        ),
        (LoginState::SignedIn, LoginEvent::SessionSaved) => LoginState::Complete,
        (LoginState::Complete, _) => LoginState::Complete,
        (LoginState::Failed(err), _) => LoginState::Failed(err),
        _ => LoginState::Failed(RemoteError::Io),
    }
}

/// What each flow state asks the application to do.
pub open spec fn spec_login_action(s: LoginState) -> LoginAction {
    match s {
        LoginState::Start => LoginAction::Connect,
        LoginState::Connected => LoginAction::CheckAuthorization,
        LoginState::NeedCode => LoginAction::RequestLoginCode,
        LoginState::CodeRequested => LoginAction::SignIn,
        LoginState::SignedIn => LoginAction::SaveSession,
        LoginState::Complete => LoginAction::InstallHandle,
        LoginState::Failed(err) => LoginAction::Report(err),
    }
}

/// Advances the login flow by one observed outcome.
pub fn login_step(s: LoginState, e: LoginEvent) -> (r: LoginState)
    ensures
        r == spec_login_step(s, e),
{
    match (s, e) {
        (LoginState::Start, LoginEvent::ConnectOk) => LoginState::Connected,
        (LoginState::Connected, LoginEvent::Authorized) => LoginState::Complete,
        (LoginState::Connected, LoginEvent::Unauthorized) => LoginState::NeedCode,
        (LoginState::NeedCode, LoginEvent::CodeSent) => LoginState::CodeRequested,
        (LoginState::CodeRequested, LoginEvent::SignInOk) => LoginState::SignedIn,
        (LoginState::CodeRequested, LoginEvent::SignInFailed) => LoginState::Failed(
            RemoteError::Auth,
        ),
        (LoginState::SignedIn, LoginEvent::SessionSaved) => LoginState::Complete,
        (LoginState::Complete, _) => LoginState::Complete,
        (LoginState::Failed(err), _) => LoginState::Failed(err),
        _ => LoginState::Failed(RemoteError::Io),
    }
}

/// Names the next action of a login flow run.
pub fn login_action(s: LoginState) -> (r: LoginAction)
    ensures
        r == spec_login_action(s),
{
    match s {
        LoginState::Start => LoginAction::Connect,
        LoginState::Connected => LoginAction::CheckAuthorization,
        LoginState::NeedCode => LoginAction::RequestLoginCode,
        LoginState::CodeRequested => LoginAction::SignIn,
        LoginState::SignedIn => LoginAction::SaveSession,
        LoginState::Complete => LoginAction::InstallHandle,
        LoginState::Failed(err) => LoginAction::Report(err),
    }
}

/// Once a login flow run completes or fails, no further event moves it:
/// one run produces at most one outcome, and a failure is never retried
/// inside the flow.
pub proof fn lemma_login_terminal(s: LoginState, e: LoginEvent)
    requires
        s is Complete || s is Failed,
    ensures
        spec_login_step(s, e) == s,
{
}

/// A one-time login code is requested only after the remote service
/// reported the stored session unauthorized: an authorized connect reaches
/// `Complete` without any code exchange.
pub proof fn lemma_code_only_when_unauthorized(s: LoginState, e: LoginEvent)
    requires
        spec_login_step(s, e) is NeedCode,
    ensures
        s is Connected,
        e is Unauthorized,
{
}

/// Relies on chrono::Utc::now: the current instant, in whole seconds since
/// the Unix epoch.  Nothing can be promised of a clock reading, so there is
/// no clause.
#[verifier::external_body]
pub fn current_unix_time() -> i64 {
    chrono::Utc::now().timestamp()
}

/// `pat` occurs in `text` starting at position `i`.
pub open spec fn matches_at(text: Seq<char>, pat: Seq<char>, i: int) -> bool {
    0 <= i && i + pat.len() <= text.len() && text.subrange(i, i + pat.len() as int) == pat
}

/// `pat` occurs somewhere in `text` as a contiguous run of characters.
pub open spec fn contains_seq(text: Seq<char>, pat: Seq<char>) -> bool {
    exists|i: int| matches_at(text, pat, i)
}

/// Whether `pat` occurs in `text` as a contiguous run of characters.
pub fn str_contains(text: &str, pat: &str) -> (r: bool)
    ensures
        r == contains_seq(text@, pat@),
{
    let n = text.unicode_len();
    let m = pat.unicode_len();
    if m > n {
        proof {
            assert forall|i: int| !matches_at(text@, pat@, i) by {}
        }
        return false;
    }
    if m == 0 {
        proof {
            assert(text@.subrange(0, 0) =~= pat@);
            assert(matches_at(text@, pat@, 0));
        }
        return true;
    }
    let mut i: usize = 0;
    while i <= n - m
        invariant
            1 <= m <= n,
            n == text@.len(),
            m == pat@.len(),
            i <= n - m + 1,
            forall|k: int| 0 <= k < i ==> !matches_at(text@, pat@, k),
        decreases n - m + 1 - i,
    {
        let mut j: usize = 0;
        let mut matched = true;
        while matched && j < m
            invariant
                j <= m,
                i + m <= n,
                n == text@.len(),
                m == pat@.len(),
                matched ==> forall|l: int| 0 <= l < j ==> text@[i + l] == pat@[l],
                !matched ==> !matches_at(text@, pat@, i as int),
            decreases m - j + (if matched {
                1int
            } else {
                0int
            }),
        {
            let tc = text.get_char(i + j);
            let pc = pat.get_char(j);
            if tc == pc {
                j = j + 1;
            } else {
                proof {
                    if matches_at(text@, pat@, i as int) {
                        assert(text@.subrange(i as int, i + pat@.len() as int)[j as int]
                            == text@[i + j]);
                    }
                }
                matched = false;
            }
        }
        if matched {
            proof {
                assert(text@.subrange(i as int, i + pat@.len() as int) =~= pat@);
                assert(matches_at(text@, pat@, i as int));
            }
            return true;
        }
        i = i + 1;
    }
    proof {
        assert forall|k: int| !matches_at(text@, pat@, k) by {
            if 0 <= k && k + pat@.len() <= text@.len() {
                assert(k < i);
            }
        }
    }
    false
}

/// Picks the positions of the sources whose display name carries the
/// configured filter, in their discovery order: exactly those sources are
/// scanned by a refresh, and no others.
pub fn select_chats(names: &Vec<String>, filter: &str) -> (r: Vec<usize>)
    ensures
        forall|j: int|
            0 <= j < r@.len() ==> r@[j] < names@.len() && contains_seq(
                names@[r@[j] as int]@,
                filter@,
            ),
        forall|j1: int, j2: int| 0 <= j1 < j2 < r@.len() ==> r@[j1] < r@[j2],
        forall|i: int|
            0 <= i < names@.len() && contains_seq(names@[i]@, filter@) ==> r@.contains(i as usize),
{
    let mut r: Vec<usize> = Vec::new();
    let mut i: usize = 0;
    while i < names.len()
        invariant
            i <= names@.len(),
            forall|j: int|
                0 <= j < r@.len() ==> r@[j] < i && contains_seq(names@[r@[j] as int]@, filter@),
            forall|j1: int, j2: int| 0 <= j1 < j2 < r@.len() ==> r@[j1] < r@[j2],
            forall|k: int|
                0 <= k < i && contains_seq(names@[k]@, filter@) ==> r@.contains(k as usize),
        decreases names@.len() - i,
    {
        let ghost r_old = r@;
        if str_contains(names[i].as_str(), filter) {
            r.push(i);
        }
        proof {
            assert forall|k: int|
                0 <= k < i + 1 && contains_seq(names@[k]@, filter@) implies r@.contains(
                k as usize,
            ) by {
                if k < i {
                    let idx = choose|idx: int| 0 <= idx < r_old.len() && r_old[idx] == k as usize;
                    assert(r@[idx] == k as usize);
                } else {
                    assert(r@[r@.len() - 1] == i);
                }
            }
        }
        i = i + 1;
    }
    r
}

/// Within one TTL window every call after the first serves the identical
/// snapshot content and the identical fingerprint, and triggers no refresh:
/// the served result depends only on the cache's state, never on which
/// fresh instant it is read at.
pub proof fn lemma_fresh_window_stable(c: ClientWrapper, t1: i64, t2: i64)
    requires
        c.fresh_at(t1),
        c.fresh_at(t2),
    ensures
        c.fresh_at(t1) && c.fresh_at(t2),
        forall|r: Option<(Vec<DownloadFile>, u64)>|
            c.cached_result_matches(t1, r) ==> r is Some,
        forall|r1: Option<(Vec<DownloadFile>, u64)>, r2: Option<(Vec<DownloadFile>, u64)>|
            c.cached_result_matches(t1, r1) && c.cached_result_matches(t2, r2) ==> ({
                &&& r1 is Some
                &&& r2 is Some
                &&& metas_of(r1->Some_0.0@) == metas_of(r2->Some_0.0@)
                &&& r1->Some_0.1 == r2->Some_0.1
            }),
{
}

/// Directly after a successful refresh at instant `t`, every call in the
/// window `[t, t + ttl]` is served from the cache: at most one refresh
/// happens per expiry window.
pub proof fn lemma_no_second_refresh(c: ClientWrapper, now: i64)
    requires
        c.has_snapshot(),
        c.snapshot_time() <= now,
        now - c.snapshot_time() <= c.spec_ttl(),
    ensures
        c.fresh_at(now),
        forall|r: Option<(Vec<DownloadFile>, u64)>|
            c.cached_result_matches(now, r) ==> r is Some,
{
}

/// While a handle is live, handle acquisition returns it as it stands and
/// never asks for a login; only an absent slot does.
pub proof fn lemma_live_handle_no_login(c: ClientWrapper)
    requires
        c.session_live(),
    ensures
        c.spec_client() is Some,
        c.spec_client() == Some(c.session()->Live_0),
{
}

} // verus!
