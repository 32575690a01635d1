//! The login lifecycle: password login, authorization-code login through a
//! one-shot local redirect listener, and restore of a stored session.

use vstd::prelude::*;

use crate::identity::{
    consumed, json_string_map, opt_view, reconcile, state_dir, state_dir_of, stored_table,
    string_map_json, Reconciliation,
};

verus! {

/// Port of the local listener that receives the authorization redirect.
pub const REDIRECT_PORT: u16 = 18779;

/// The first position at or after `k` that holds a space, or the length.
pub open spec fn next_space(s: Seq<char>, k: int) -> int
    decreases s.len() - k,
{
    if k >= s.len() {
        s.len() as int
    } else if s[k] == ' ' {
        k
    } else {
        next_space(s, k + 1)
    }
}

/// The second space-separated field of an HTTP request line: the target.
pub open spec fn request_target(line: Seq<char>) -> Option<Seq<char>> {
    let a = next_space(line, 0);
    if a >= line.len() {
        None
    } else {
        Some(line.subrange(a + 1, next_space(line, a + 1)))
    }
}

/// The query of a redirect to `/?<query>`: the target without its first two
/// characters.
pub open spec fn redirect_query_of(line: Seq<char>) -> Option<Seq<char>> {
    match request_target(line) {
        Some(t) => if t.len() >= 2 {
            Some(t.skip(2))
        } else {
            None
        },
        None => None,
    }
}

proof fn lemma_next_space_bounds(s: Seq<char>, k: int)
    requires
        0 <= k <= s.len(),
    ensures
        k <= next_space(s, k) <= s.len(),
    decreases s.len() - k,
{
    if k < s.len() && s[k] != ' ' {
        lemma_next_space_bounds(s, k + 1);
    }
}

fn find_space(s: &str, from: usize, n: usize) -> (r: usize)
    requires
        n == s@.len(),
        from <= n,
    ensures
        r == next_space(s@, from as int),
{
    let mut i = from;
    while i < n
        invariant
            n == s@.len(),
            from <= i <= n,
            next_space(s@, from as int) == next_space(s@, i as int),
        decreases n - i,
    {
        if s.get_char(i) == ' ' {
            return i;
        }
        i = i + 1;
    }
    i
}

/// The query string that the browser's redirect carries, read from the
/// request line (`GET /?code=...&state=... HTTP/1.1`); `None` where the line
/// has no target of at least two characters.
pub fn redirect_query(request_line: &str) -> (r: Option<String>)
    ensures
        r is Some == redirect_query_of(request_line@) is Some,
        r matches Some(q) ==> q@ == redirect_query_of(request_line@).unwrap(),
{
    let n = request_line.unicode_len();
    let a = find_space(request_line, 0, n);
    if a >= n {
        return None;
    }
    let b = find_space(request_line, a + 1, n);
    proof {
        lemma_next_space_bounds(request_line@, a as int + 1);
    }
    if b - (a + 1) < 2 {
        return None;
    }
    let q = request_line.substring_char(a + 3, b);
    proof {
        assert(q@ =~= request_line@.subrange(a + 1, b as int).skip(2));
    }
    Some(String::from_str(q))
}

/// How a login was started.
#[derive(PartialEq, Eq, Structural, Clone, Copy, Debug)]
pub enum LoginMethod {
    Password,
    AuthorizationCode,
    Restore,
}

/// Where a login stands.
#[derive(PartialEq, Eq, Structural, Clone, Copy, Debug)]
pub enum AuthPhase {
    /// The client is being built or the credentials are being checked.
    Authenticating,
    /// The authorization URL was handed out; the redirect has not come.
    AwaitingRedirect,
    /// The redirect came; the code is being exchanged.
    Exchanging,
    Authenticated,
    Failed,
}

/// What completing a login asks for.
pub struct Completion {
    /// An unresolved-identity entry to record: account identifier, token.
    pub record: Option<(String, String)>,
    /// The identifier to announce as connected.
    pub connected: String,
}

/// One login attempt.
pub struct Login {
    method: LoginMethod,
    phase: AuthPhase,
    /// The account identifier, or for an authorization-code login the server name.
    name: String,
    /// The provisional token of an authorization-code login.
    token: String,
}

impl Login {
    pub closed spec fn method_spec(&self) -> LoginMethod {
        self.method
    }

    pub closed spec fn phase_spec(&self) -> AuthPhase {
        self.phase
    }

    /// The account identifier, or for an authorization-code login the server name.
    pub closed spec fn name_spec(&self) -> Seq<char> {
        self.name@
    }

    pub closed spec fn token_spec(&self) -> Seq<char> {
        self.token@
    }

    /// A password login for `matrix_id`.
    pub fn password(matrix_id: String) -> (r: Self)
        ensures
            r.method_spec() == LoginMethod::Password,
            r.phase_spec() == AuthPhase::Authenticating,
            r.name_spec() == matrix_id@,
    {
        Login { method: LoginMethod::Password, phase: AuthPhase::Authenticating, name: matrix_id, token: String::new() }
    }

    /// The restore of a stored session of `matrix_id`.
    pub fn restore(matrix_id: String) -> (r: Self)
        ensures
            r.method_spec() == LoginMethod::Restore,
            r.phase_spec() == AuthPhase::Authenticating,
            r.name_spec() == matrix_id@,
    {
        Login { method: LoginMethod::Restore, phase: AuthPhase::Authenticating, name: matrix_id, token: String::new() }
    }

    /// An authorization-code login on `server_name`, whose state is kept
    /// under `token` until the account is known.
    pub fn authorization_code(server_name: String, token: String) -> (r: Self)
        ensures
            r.method_spec() == LoginMethod::AuthorizationCode,
            r.phase_spec() == AuthPhase::Authenticating,
            r.name_spec() == server_name@,
            r.token_spec() == token@,
    {
        Login { method: LoginMethod::AuthorizationCode, phase: AuthPhase::Authenticating, name: server_name, token }
    }

    pub fn phase(&self) -> (r: AuthPhase)
        ensures
            r == self.phase_spec(),
    {
        self.phase
    }

    pub fn method(&self) -> (r: LoginMethod)
        ensures
            r == self.method_spec(),
    {
        self.method
    }

    /// The authorization URL is ready: an authorization-code login that is
    /// authenticating now waits for the redirect, and the server name and URL
    /// are to be announced. Any other login is left as it is.
    pub fn url_ready(&mut self, url: String) -> (r: Option<(String, String)>)
        ensures
            final(self).method_spec() == old(self).method_spec(),
            final(self).name_spec() == old(self).name_spec(),
            final(self).token_spec() == old(self).token_spec(),
            old(self).method_spec() == LoginMethod::AuthorizationCode && old(self).phase_spec()
                == AuthPhase::Authenticating <==> r is Some,
            r matches Some(p) ==> p.0@ == old(self).name_spec() && p.1@ == url@ && final(self).phase_spec()
                == AuthPhase::AwaitingRedirect,
            r is None ==> final(self).phase_spec() == old(self).phase_spec(),
    {
        if self.method == LoginMethod::AuthorizationCode && self.phase == AuthPhase::Authenticating {
            self.phase = AuthPhase::AwaitingRedirect;
            Some((self.name.clone(), url))
        } else {
            None
        }
    }

    /// The listener read the redirect's request line. A login that awaits it
    /// moves on to the exchange with the query the line carries, or fails
    /// where the line carries none. Any other login is left as it is.
    pub fn redirect_received(&mut self, request_line: &str) -> (r: Option<String>)
        ensures
            final(self).method_spec() == old(self).method_spec(),
            final(self).name_spec() == old(self).name_spec(),
            final(self).token_spec() == old(self).token_spec(),
            old(self).phase_spec() != AuthPhase::AwaitingRedirect ==> r is None && final(self).phase_spec()
                == old(self).phase_spec(),
            old(self).phase_spec() == AuthPhase::AwaitingRedirect ==> {
                match redirect_query_of(request_line@) {
                    Some(q) => final(self).phase_spec() == AuthPhase::Exchanging && (r matches Some(x)
                        && x@ == q),
                    None => final(self).phase_spec() == AuthPhase::Failed && r is None,
                }
            },
    {
        if self.phase != AuthPhase::AwaitingRedirect {
            return None;
        }
        let q = redirect_query(request_line);
        match q {
            Some(query) => {
                self.phase = AuthPhase::Exchanging;
                Some(query)
            },
            None => {
                self.phase = AuthPhase::Failed;
                None
            },
        }
    }

    /// The server accepted the login; `user_id` is the account it resolved
    /// to. A password login or a restore that is authenticating becomes
    /// authenticated and announces its account. An authorization-code login
    /// that is exchanging becomes authenticated, records its token against
    /// `user_id`, and announces `user_id`, the account that only now is
    /// known. Any other login is left as it is.
    pub fn login_succeeded(&mut self, user_id: String) -> (r: Option<Completion>)
        ensures
            final(self).method_spec() == old(self).method_spec(),
            final(self).name_spec() == old(self).name_spec(),
            final(self).token_spec() == old(self).token_spec(),
            r is Some <==> (if old(self).method_spec() == LoginMethod::AuthorizationCode {
                old(self).phase_spec() == AuthPhase::Exchanging
            } else {
                old(self).phase_spec() == AuthPhase::Authenticating
            }),
            r is None ==> final(self).phase_spec() == old(self).phase_spec(),
            r matches Some(c) ==> {
                &&& final(self).phase_spec() == AuthPhase::Authenticated
                &&& c.connected@ == if old(self).method_spec() == LoginMethod::AuthorizationCode {
                    user_id@
                } else {
                    old(self).name_spec()
                }
                &&& c.record is Some == (old(self).method_spec() == LoginMethod::AuthorizationCode)
                &&& c.record matches Some(e) ==> e.0@ == user_id@ && e.1@ == old(self).token_spec()
            },
    {
        let due = if self.method == LoginMethod::AuthorizationCode {
            self.phase == AuthPhase::Exchanging
        } else {
            self.phase == AuthPhase::Authenticating
        };
        if !due {
            return None;
        }
        self.phase = AuthPhase::Authenticated;
        if self.method == LoginMethod::AuthorizationCode {
            let connected = user_id.clone();
            Some(Completion { record: Some((user_id, self.token.clone())), connected })
        } else {
            Some(Completion { record: None, connected: self.name.clone() })
        }
    }

    /// A step of the login failed: a login that is not yet authenticated is
    /// abandoned.
    pub fn fail(&mut self)
        ensures
            final(self).method_spec() == old(self).method_spec(),
            final(self).name_spec() == old(self).name_spec(),
            final(self).token_spec() == old(self).token_spec(),
            old(self).phase_spec() == AuthPhase::Authenticated ==> final(self).phase_spec()
                == AuthPhase::Authenticated,
            old(self).phase_spec() != AuthPhase::Authenticated ==> final(self).phase_spec()
                == AuthPhase::Failed,
    {
        if self.phase != AuthPhase::Authenticated {
            self.phase = AuthPhase::Failed;
        }
    }
}

/// The server's answer to a logout request.
#[derive(PartialEq, Eq, Structural, Clone, Copy, Debug)]
pub enum LogoutReply {
    Success,
    /// An error response, with its HTTP status and whether its error code
    /// says that the access token is unknown.
    Rejected { status: u16, unknown_token: bool },
    /// No response could be had.
    Unreachable,
}

/// HTTP status of a request without valid credentials.
pub const UNAUTHORIZED: u16 = 401;

/// Whether the account counts as logged out after `reply`: on success, and
/// where the server no longer knows the token.
pub fn is_logged_out(reply: LogoutReply) -> (r: bool)
    ensures
        r == (reply == LogoutReply::Success || reply == (LogoutReply::Rejected {
            status: UNAUTHORIZED,
            unknown_token: true,
        })),
{
    match reply {
        LogoutReply::Success => true,
        LogoutReply::Rejected { status, unknown_token } => status == UNAUTHORIZED && unknown_token,
        LogoutReply::Unreachable => false,
    }
}

/// How a stored session was obtained.
pub enum SessionKind {
    /// Password login.
    Native,
    /// Authorization-code login, with the client identifier it registered.
    AuthorizationCode { client_id: String },
}

/// What is stored to resume a session.
pub struct SessionBlob {
    pub kind: SessionKind,
    pub user_id: String,
    pub device_id: String,
    pub access_token: String,
    pub refresh_token: Option<String>,
}

/// What restoring a session does before the client resumes it.
pub struct RestorePlan {
    /// The directory of the account's store.
    pub store_dir: String,
    /// Disk work that consumes an unresolved entry of the account.
    pub reconciliation: Reconciliation,
    /// The table file holds no table; it is left as it is and nothing is
    /// reconciled.
    pub table_malformed: bool,
}

/// Plans the restore of `blob` with state below `base`; `file` is the text
/// of the unresolved-identity table, `None` where there is no file. An entry
/// of the account is consumed whatever kind of session is restored. Without
/// an entry, and where the file holds no table, the restore goes on with no
/// disk work: only a malformed or rejected session fails it, later.
pub fn plan_restore(base: &str, blob: &SessionBlob, file: Option<&str>) -> (plan: RestorePlan)
    ensures
        plan.store_dir@ == state_dir_of(base@, blob.user_id@),
        plan.table_malformed == stored_table(opt_view(file)) is None,
        plan.table_malformed ==> plan.reconciliation.rename is None && plan.reconciliation.table_text is None,
        !plan.table_malformed ==> {
            let m = stored_table(opt_view(file)).unwrap();
            &&& plan.reconciliation.rename is Some == m.contains_key(blob.user_id@)
            &&& plan.reconciliation.table_text is Some == m.contains_key(blob.user_id@)
            &&& plan.reconciliation.rename matches Some(p) ==> p.0@ == state_dir_of(
                base@,
                consumed(m, blob.user_id@).0.unwrap(),
            ) && p.1@ == state_dir_of(base@, blob.user_id@)
            &&& plan.reconciliation.table_text matches Some(t) ==> t@ == string_map_json(
                consumed(m, blob.user_id@).1,
            ) && json_string_map(t@) == Some(consumed(m, blob.user_id@).1)
        },
{
    let (reconciliation, table_malformed) = match reconcile(base, file, &blob.user_id) {
        Ok(plan) => (plan, false),
        Err(_) => (Reconciliation { rename: None, table_text: None }, true),
    };
    RestorePlan { store_dir: state_dir(base, blob.user_id.as_str()), reconciliation, table_malformed }
}

} // verus!
