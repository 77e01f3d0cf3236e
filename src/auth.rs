//! The session registry: token authentication, session minting and the
//! per-call session check.
use vstd::prelude::*;
use vstd::string::*;
use crate::ids::{random_string, is_alphanumeric_id, SESSION_ID_LEN};
use crate::table::KeyedTable;
use crate::text::{pair_views, str_eq};
use crate::config::Config;
use crate::transport::{LoginBody, LoginReply};

verus! {

/// The shared-secret authentication mode, the only one implemented.
pub const AUTH_METHOD_TOKEN: &'static str = "token";

/// Why a login or a call was refused.
#[derive(Clone, Copy, Debug, PartialEq, Eq, Structural)]
pub enum AuthError {
    /// No user has this token.
    InvalidToken,
    /// The configured authentication mode is not the shared-secret one.
    NotImplemented,
    /// The call carries no session.
    MissingSession,
    /// The call carries a session that was never issued.
    InvalidSession,
    /// The freshly drawn session id is already in use.
    SessionIdTaken,
}

/// The username of the first entry whose token is `token`.
pub open spec fn first_user_with_token(pairs: Seq<(Seq<char>, Seq<char>)>, token: Seq<char>) -> Option<Seq<char>>
    decreases pairs.len(),
{
    if pairs.len() == 0 {
        None
    } else if pairs[0].1 == token {
        Some(pairs[0].0)
    } else {
        first_user_with_token(pairs.drop_first(), token)
    }
}

/// What authenticating `token` yields under `auth_method`.
pub open spec fn login_outcome(auth_method: Seq<char>, tokens: Seq<(String, String)>, token: Seq<char>) -> Result<Seq<char>, AuthError> {
    if auth_method != AUTH_METHOD_TOKEN@ {
        Err(AuthError::NotImplemented)
    } else {
        match first_user_with_token(pair_views(tokens), token) {
            Some(u) => Ok(u),
            None => Err(AuthError::InvalidToken),
        }
    }
}

/// Finds the user of `token` by a linear scan of the token table.
pub fn token_to_username(auth_method: &str, tokens: &Vec<(String, String)>, token: &str) -> (r: Result<String, AuthError>)
    ensures
        match login_outcome(auth_method@, tokens@, token@) {
            Ok(u) => r is Ok && r->Ok_0@ == u,
            Err(e) => r == Err::<String, AuthError>(e),
        },
{
    if !str_eq(auth_method, AUTH_METHOD_TOKEN) {
        return Err(AuthError::NotImplemented);
    }
    let ghost pairs = pair_views(tokens@);
    assert(pairs.subrange(0, pairs.len() as int) =~= pairs);
    let mut i: usize = 0;
    while i < tokens.len()
        invariant
            auth_method@ == AUTH_METHOD_TOKEN@,
            i <= tokens@.len(),
            pairs == pair_views(tokens@),
            first_user_with_token(pairs, token@)
                == first_user_with_token(pairs.subrange(i as int, pairs.len() as int), token@),
        decreases tokens@.len() - i,
    {
        let ghost rest = pairs.subrange(i as int, pairs.len() as int);
        assert(rest[0] == pairs[i as int]);
        assert(rest.drop_first() =~= pairs.subrange(i + 1, pairs.len() as int));
        assert(pairs[i as int] == (tokens@[i as int].0@, tokens@[i as int].1@));
        if str_eq(tokens[i].1.as_str(), token) {
            return Ok(tokens[i].0.clone());
        }
        i = i + 1;
    }
    assert(pairs.subrange(i as int, pairs.len() as int).len() == 0);
    Err(AuthError::InvalidToken)
}

/// The live sessions: session id to username.
pub struct SessionRegistry {
    sessions: KeyedTable<String>,
}

impl SessionRegistry {
    /// Session ids are unique.
    pub closed spec fn wf(&self) -> bool {
        self.sessions.wf()
    }

    /// Session id to username.
    pub closed spec fn view(&self) -> Map<Seq<char>, Seq<char>> {
        self.sessions.view().map_values(|u: String| u@)
    }

    /// A registry with no session.
    pub fn new() -> (r: Self)
        ensures
            r.wf(),
            r@ == Map::<Seq<char>, Seq<char>>::empty(),
    {
        let r = SessionRegistry { sessions: KeyedTable::new() };
        assert(r@ =~= Map::<Seq<char>, Seq<char>>::empty());
        r
    }

    /// Whether `session_id` was issued.
    pub fn contains(&self, session_id: &str) -> (r: bool)
        requires
            self.wf(),
        ensures
            r == self@.contains_key(session_id@),
    {
        self.sessions.contains_key(session_id)
    }

    /// Records a session for `username` under `session_id`, unless that id is
    /// already in use.
    pub fn register(&mut self, session_id: String, username: String) -> (r: bool)
        requires
            old(self).wf(),
        ensures
            final(self).wf(),
            r == !old(self)@.contains_key(session_id@),
            r ==> final(self)@ == old(self)@.insert(session_id@, username@),
            !r ==> final(self)@ == old(self)@,
    {
        if self.sessions.contains_key(session_id.as_str()) {
            return false;
        }
        let ghost before = self.sessions.view();
        let ghost (k, u) = (session_id@, username);
        self.sessions.insert(session_id, username);
        assert(self@ =~= old(self)@.insert(k, u@)) by {
            assert(self.sessions.view() == before.insert(k, u));
        }
        true
    }

    /// Authenticates `token` and opens a session with a fresh random id.
    pub fn login(&mut self, auth_method: &str, tokens: &Vec<(String, String)>, token: &str) -> (r: Result<LoginReply, AuthError>)
        requires
            old(self).wf(),
        ensures
            final(self).wf(),
            match r {
                Ok(reply) => {
                    &&& login_outcome(auth_method@, tokens@, token@) == Ok::<Seq<char>, AuthError>(reply.username@)
                    &&& is_alphanumeric_id(reply.session_id@, SESSION_ID_LEN as nat)
                    &&& !old(self)@.contains_key(reply.session_id@)
                    &&& final(self)@ == old(self)@.insert(reply.session_id@, reply.username@)
                },
                Err(e) => {
                    &&& final(self)@ == old(self)@
                    &&& (login_outcome(auth_method@, tokens@, token@) == Err::<Seq<char>, AuthError>(e)
                        || (login_outcome(auth_method@, tokens@, token@) is Ok && e == AuthError::SessionIdTaken))
                },
            },
            login_outcome(auth_method@, tokens@, token@) is Err ==> r is Err
                && r->Err_0 == login_outcome(auth_method@, tokens@, token@)->Err_0,
            r is Err && r->Err_0 == AuthError::SessionIdTaken ==> exists|id: Seq<char>|
                is_alphanumeric_id(id, SESSION_ID_LEN as nat) && old(self)@.contains_key(id),
    {
        let username = match token_to_username(auth_method, tokens, token) {
            Ok(u) => u,
            Err(e) => return Err(e),
        };
        let session_id = random_string(SESSION_ID_LEN);
        if self.register(session_id.clone(), username.clone()) {
            Ok(LoginReply { session_id, username })
        } else {
            assert(is_alphanumeric_id(session_id@, SESSION_ID_LEN as nat) && old(self)@.contains_key(session_id@));
            Err(AuthError::SessionIdTaken)
        }
    }

    /// Checks the `authorization` value a call carries.
    pub fn check_auth(&self, authorization: Option<&str>) -> (r: Result<(), AuthError>)
        requires
            self.wf(),
        ensures
            match authorization {
                None => r == Err::<(), AuthError>(AuthError::MissingSession),
                Some(s) => if self@.contains_key(s@) {
                    r is Ok
                } else {
                    r == Err::<(), AuthError>(AuthError::InvalidSession)
                },
            },
    {
        match authorization {
            None => Err(AuthError::MissingSession),
            Some(s) => if self.sessions.contains_key(s) {
                Ok(())
            } else {
                Err(AuthError::InvalidSession)
            },
        }
    }
}

/// The `User` service: the configured token table and the live sessions.
pub struct RSLUser {
    auth_method: String,
    tokens: Vec<(String, String)>,
    sessions: SessionRegistry,
}

impl RSLUser {
    /// The session registry is well formed.
    pub closed spec fn wf(&self) -> bool {
        self.sessions.wf()
    }

    /// The configured authentication mode.
    pub closed spec fn auth_method(&self) -> Seq<char> {
        self.auth_method@
    }

    /// The configured token table.
    pub closed spec fn tokens(&self) -> Seq<(String, String)> {
        self.tokens@
    }

    /// Session id to username.
    pub closed spec fn sessions(&self) -> Map<Seq<char>, Seq<char>> {
        self.sessions@
    }

    /// The service for `cfg`, with no session yet.
    pub fn new(cfg: &Config) -> (r: Self)
        ensures
            r.wf(),
            r.auth_method() == cfg.core.auth_method@,
            r.tokens() == cfg.tokens@,
            r.sessions() == Map::<Seq<char>, Seq<char>>::empty(),
    {
        RSLUser {
            auth_method: cfg.core.auth_method.clone(),
            tokens: clone_pairs(&cfg.tokens),
            sessions: SessionRegistry::new(),
        }
    }

    /// Handles `User.login`.
    pub fn login(&mut self, body: &LoginBody) -> (r: Result<LoginReply, AuthError>)
        requires
            old(self).wf(),
        ensures
            final(self).wf(),
            final(self).auth_method() == old(self).auth_method(),
            final(self).tokens() == old(self).tokens(),
            match r {
                Ok(reply) => {
                    &&& login_outcome(old(self).auth_method(), old(self).tokens(), body.token@)
                        == Ok::<Seq<char>, AuthError>(reply.username@)
                    &&& is_alphanumeric_id(reply.session_id@, SESSION_ID_LEN as nat)
                    &&& !old(self).sessions().contains_key(reply.session_id@)
                    &&& final(self).sessions() == old(self).sessions().insert(reply.session_id@, reply.username@)
                },
                Err(e) => {
                    &&& final(self).sessions() == old(self).sessions()
                    &&& (login_outcome(old(self).auth_method(), old(self).tokens(), body.token@)
                        == Err::<Seq<char>, AuthError>(e) || e == AuthError::SessionIdTaken)
                },
            },
            login_outcome(old(self).auth_method(), old(self).tokens(), body.token@) is Err ==> r is Err
                && r->Err_0 == login_outcome(old(self).auth_method(), old(self).tokens(), body.token@)->Err_0,
            r is Err && r->Err_0 == AuthError::SessionIdTaken ==> exists|id: Seq<char>|
                is_alphanumeric_id(id, SESSION_ID_LEN as nat) && old(self).sessions().contains_key(id),
    {
        self.sessions.login(self.auth_method.as_str(), &self.tokens, body.token.as_str())
    }

    /// The check applied to every tunnel call: `authorization` must name a
    /// live session.
    pub fn call(&self, authorization: Option<&str>) -> (r: Result<(), AuthError>)
        requires
            self.wf(),
        ensures
            match authorization {
                None => r == Err::<(), AuthError>(AuthError::MissingSession),
                Some(s) => if self.sessions().contains_key(s@) {
                    r is Ok
                } else {
                    r == Err::<(), AuthError>(AuthError::InvalidSession)
                },
            },
    {
        self.sessions.check_auth(authorization)
    }
}

fn clone_pairs(v: &Vec<(String, String)>) -> (r: Vec<(String, String)>)
    ensures
        r@ == v@,
{
    let mut out: Vec<(String, String)> = Vec::new();
    let mut i: usize = 0;
    while i < v.len()
        invariant
            i <= v@.len(),
            out@ == v@.subrange(0, i as int),
        decreases v@.len() - i,
    {
        out.push((v[i].0.clone(), v[i].1.clone()));
        i = i + 1;
        assert(out@ =~= v@.subrange(0, i as int));
    }
    assert(v@.subrange(0, i as int) =~= v@);
    out
}

/// Client side: attaches the session id to every tunnel call.
#[derive(Clone, Debug)]
pub struct SessionInterceptor {
    pub session: String,
}

impl SessionInterceptor {
    /// An interceptor for `session`.
    pub fn new(session: String) -> (r: Self)
        ensures
            r.session@ == session@,
    {
        SessionInterceptor { session }
    }

    /// The metadata key under which the session travels.
    pub fn metadata_key(&self) -> (r: &'static str)
        ensures
            r@ == "authorization"@,
    {
        "authorization"
    }
}

/// One login as the registry records it: `after` is `before` with the fresh
/// session `id` added, and `id` was not in `before` (what `login` ensures).
pub open spec fn login_step(before: Map<Seq<char>, Seq<char>>, after: Map<Seq<char>, Seq<char>>, id: Seq<char>) -> bool {
    &&& !before.contains_key(id)
    &&& after.contains_key(id)
    &&& after == before.insert(id, after[id])
}

/// Session ids are distinct: along any sequence of logins, each taking the
/// registry from `states[i]` to `states[i + 1]` and issuing `ids[i]`, no two
/// logins issue the same id.
pub proof fn lemma_session_ids_distinct(states: Seq<Map<Seq<char>, Seq<char>>>, ids: Seq<Seq<char>>)
    requires
        states.len() == ids.len() + 1,
        forall|i: int| 0 <= i < ids.len() ==> login_step(#[trigger] states[i], states[i + 1], ids[i]),
    ensures
        forall|i: int, j: int| 0 <= i < j < ids.len() ==> ids[i] != ids[j],
{
    assert forall|i: int, j: int| 0 <= i < j < ids.len() implies ids[i] != ids[j] by {
        lemma_issued_stays(states, ids, i, j);
    }
}

proof fn lemma_issued_stays(states: Seq<Map<Seq<char>, Seq<char>>>, ids: Seq<Seq<char>>, i: int, j: int)
    requires
        states.len() == ids.len() + 1,
        forall|k: int| 0 <= k < ids.len() ==> login_step(#[trigger] states[k], states[k + 1], ids[k]),
        0 <= i < j <= ids.len(),
    ensures
        states[j].contains_key(ids[i]),
    decreases j - i,
{
    assert(login_step(states[j - 1], states[j], ids[j - 1]));
    if j - 1 > i {
        lemma_issued_stays(states, ids, i, j - 1);
    }
}

} // verus!
