//! The call engine: session handling and the bounded retry loop of one
//! logical RPC call.
//!
//! One call issues at most [`crate::MAX_RETRIES`] requests.  A conflict
//! response carrying a fresh session token makes the engine observe the token
//! and try again; a conflict without one is fatal; any other response is
//! handed back to the caller for decoding.  `run_sent`, `run_token` and
//! `run_outcome` state exactly which requests such a call issues, which token
//! each carries, and how the call ends, for any sequence of server replies.

use vstd::prelude::*;
use vstd::string::StringExecFns;

use crate::b64::{base64_encode, base64_encoding_of};
use crate::json::JsonValue;
use crate::types::BasicAuth;
use crate::{TransError, MAX_RETRIES};

verus! {

/// The character sequence behind an optional string.
pub open spec fn opt_str_view(o: Option<String>) -> Option<Seq<char>> {
    match o {
        Some(s) => Some(s@),
        None => None,
    }
}

/// Holds zero or one session token.  The token is absent at construction,
/// and is only ever replaced by [`SessionManager::observe`] — never cleared.
pub struct SessionManager {
    token: Option<String>,
}

impl SessionManager {
    /// The token currently held.
    pub closed spec fn spec_token(&self) -> Option<Seq<char>> {
        opt_str_view(self.token)
    }

    /// A manager holding no token.
    pub fn new() -> (r: SessionManager)
        ensures
            r.spec_token() is None,
    {
        SessionManager { token: None }
    }

    /// The token currently held, if the server has ever supplied one.
    pub fn current_token(&self) -> (r: Option<String>)
        ensures
            opt_str_view(r) == self.spec_token(),
    {
        match &self.token {
            None => None,
            Some(t) => Some(t.clone()),
        }
    }

    /// Stores `token`, replacing any earlier one.  This is the only mutation.
    pub fn observe(&mut self, token: String)
        ensures
            final(self).spec_token() == Some(token@),
    {
        self.token = Some(token);
    }
}

/// The retry budget of one logical call.
pub struct CallEngine {
    remaining: usize,
}

/// One reply from the server, as the engine classifies it: a session
/// conflict (with the session header's value, where present), or anything
/// else, whose decoded body is handed on to the caller.
pub enum WireReply {
    Conflict(Option<String>),
    Delivered(JsonValue),
}

/// How a call ends: with a delivered response body, with one of the engine's
/// errors, or still waiting because the reply sequence ran out first.
pub enum CallOutcome {
    Delivered(JsonValue),
    Failed(TransError),
    AwaitingReply,
}

/// The token state after the engine has seen `r`: a conflict carrying a
/// token replaces the old one; everything else leaves it.
pub open spec fn reply_step_token(token: Option<Seq<char>>, r: WireReply) -> Option<Seq<char>> {
    match r {
        WireReply::Conflict(h) => match h {
            Some(t) => Some(t@),
            None => token,
        },
        WireReply::Delivered(_) => token,
    }
}

/// The token state after the engine has seen all of `replies`.
pub open spec fn token_after(token: Option<Seq<char>>, replies: Seq<WireReply>) -> Option<
    Seq<char>,
>
    decreases replies.len(),
{
    if replies.len() == 0 {
        token
    } else {
        token_after(reply_step_token(token, replies.first()), replies.drop_first())
    }
}

/// The session tokens attached to the requests a call issues, in order,
/// when the server answers with `replies` and `budget` requests may still be
/// sent.  A request is counted once its reply arrives.
pub open spec fn run_sent(
    token: Option<Seq<char>>,
    replies: Seq<WireReply>,
    budget: nat,
) -> Seq<Option<Seq<char>>>
    decreases replies.len(),
{
    if budget == 0 || replies.len() == 0 {
        Seq::empty()
    } else {
        match replies.first() {
            WireReply::Delivered(_) => seq![token],
            WireReply::Conflict(h) => match h {
                None => seq![token],
                Some(t) => seq![token] + run_sent(
                    Some(t@),
                    replies.drop_first(),
                    (budget - 1) as nat,
                ),
            },
        }
    }
}

/// The token the session manager holds once the call has ended.
pub open spec fn run_token(
    token: Option<Seq<char>>,
    replies: Seq<WireReply>,
    budget: nat,
) -> Option<Seq<char>>
    decreases replies.len(),
{
    if budget == 0 || replies.len() == 0 {
        token
    } else {
        match replies.first() {
            WireReply::Delivered(_) => token,
            WireReply::Conflict(h) => match h {
                None => token,
                Some(t) => run_token(Some(t@), replies.drop_first(), (budget - 1) as nat),
            },
        }
    }
}

/// How the call ends.  This depends only on the replies and the budget,
/// never on the token state.
pub open spec fn run_outcome(replies: Seq<WireReply>, budget: nat) -> CallOutcome
    decreases replies.len(),
{
    if budget == 0 {
        CallOutcome::Failed(TransError::MaxRetriesReached)
    } else if replies.len() == 0 {
        CallOutcome::AwaitingReply
    } else {
        match replies.first() {
            WireReply::Delivered(v) => CallOutcome::Delivered(v),
            WireReply::Conflict(h) => match h {
                None => CallOutcome::Failed(TransError::NoSessionIdReceived),
                Some(_) => run_outcome(replies.drop_first(), (budget - 1) as nat),
            },
        }
    }
}

/// The character sequences behind a list of optional strings.
pub open spec fn sent_views(s: Seq<Option<String>>) -> Seq<Option<Seq<char>>> {
    Seq::new(s.len(), |i: int| opt_str_view(s[i]))
}

/// How many requests a call issues.  Like the outcome, this depends only on
/// the replies and the budget.
pub open spec fn run_count(replies: Seq<WireReply>, budget: nat) -> int
    decreases replies.len(),
{
    if budget == 0 || replies.len() == 0 {
        0
    } else {
        match replies.first() {
            WireReply::Delivered(_) => 1,
            WireReply::Conflict(h) => match h {
                None => 1,
                Some(_) => 1 + run_count(replies.drop_first(), (budget - 1) as nat),
            },
        }
    }
}

impl CallEngine {
    /// How many requests this call may still issue.
    pub closed spec fn spec_remaining(&self) -> int {
        self.remaining as int
    }

    /// A fresh budget for one logical call.
    pub fn new() -> (r: CallEngine)
        ensures
            r.spec_remaining() == MAX_RETRIES as int,
    {
        CallEngine { remaining: MAX_RETRIES }
    }

    /// Claims one request from the budget.  Returns the token the request
    /// must carry — the session's current one — or the exhaustion error once
    /// the budget is spent.
    pub fn begin_attempt(&mut self, session: &SessionManager) -> (r: Result<
        Option<String>,
        TransError,
    >)
        ensures
            old(self).spec_remaining() == 0 ==> r == Err::<Option<String>, TransError>(
                TransError::MaxRetriesReached,
            ) && final(self).spec_remaining() == 0,
            old(self).spec_remaining() > 0 ==> final(self).spec_remaining() == old(
                self
            ).spec_remaining() - 1 && match r {
                Ok(t) => opt_str_view(t) == session.spec_token(),
                Err(_) => false,
            },
    {
        if self.remaining == 0 {
            Err(TransError::MaxRetriesReached)
        } else {
            self.remaining = self.remaining - 1;
            Ok(session.current_token())
        }
    }

    /// Claims one request from the budget, without touching any session
    /// state.  The sharable client pairs this with its own locked token
    /// snapshot.
    pub fn claim(&mut self) -> (r: Result<(), TransError>)
        ensures
            old(self).spec_remaining() == 0 ==> r == Err::<(), TransError>(
                TransError::MaxRetriesReached,
            ) && final(self).spec_remaining() == 0,
            old(self).spec_remaining() > 0 ==> r == Ok::<(), TransError>(()) && final(
                self
            ).spec_remaining() == old(self).spec_remaining() - 1,
    {
        if self.remaining == 0 {
            Err(TransError::MaxRetriesReached)
        } else {
            self.remaining = self.remaining - 1;
            Ok(())
        }
    }

    /// Handles a conflict reply: a missing session header is a fatal
    /// protocol violation; otherwise the token is stored and the call may
    /// retry.
    pub fn conflict(session: &mut SessionManager, header: Option<String>) -> (r: Result<
        (),
        TransError,
    >)
        ensures
            match header {
                None => r == Err::<(), TransError>(TransError::NoSessionIdReceived) && final(
                    session
                ).spec_token() == old(session).spec_token(),
                Some(t) => r == Ok::<(), TransError>(()) && final(session).spec_token() == Some(
                    t@,
                ),
            },
    {
        match header {
            None => Err(TransError::NoSessionIdReceived),
            Some(t) => {
                session.observe(t);
                Ok(())
            },
        }
    }
}

/// Runs one call to completion against a fixed sequence of replies, with
/// `engine`'s remaining budget: exactly the retry loop, with the network
/// taken as given.  Returns the token attached to each request issued, and
/// the outcome.
fn run_with(session: &mut SessionManager, engine: &mut CallEngine, replies: Vec<WireReply>) -> (r:
    (Vec<Option<String>>, CallOutcome))
    ensures
        sent_views(r.0@) == run_sent(
            old(session).spec_token(),
            replies@,
            old(engine).spec_remaining() as nat,
        ),
        final(session).spec_token() == run_token(
            old(session).spec_token(),
            replies@,
            old(engine).spec_remaining() as nat,
        ),
        r.1 == run_outcome(replies@, old(engine).spec_remaining() as nat),
    decreases replies@.len(),
{
    let ghost token0 = old(session).spec_token();
    let ghost budget0 = old(engine).spec_remaining() as nat;
    match engine.begin_attempt(session) {
        Err(e) => {
            let sent: Vec<Option<String>> = Vec::new();
            proof {
                assert(sent_views(sent@) =~= run_sent(token0, replies@, budget0));
            }
            (sent, CallOutcome::Failed(e))
        },
        Ok(tok) => {
            let mut replies = replies;
            if replies.len() == 0 {
                let sent: Vec<Option<String>> = Vec::new();
                proof {
                    assert(sent_views(sent@) =~= run_sent(token0, replies@, budget0));
                }
                return (sent, CallOutcome::AwaitingReply);
            }
            let ghost replies0 = replies@;
            let reply = replies.remove(0);
            proof {
                assert(replies@ =~= replies0.drop_first());
            }
            match reply {
                WireReply::Delivered(v) => {
                    let mut sent: Vec<Option<String>> = Vec::new();
                    sent.push(tok);
                    proof {
                        assert(sent_views(sent@) =~= run_sent(token0, replies0, budget0));
                    }
                    (sent, CallOutcome::Delivered(v))
                },
                WireReply::Conflict(header) => {
                    let ghost header0 = header;
                    match CallEngine::conflict(session, header) {
                        Err(e) => {
                            let mut sent: Vec<Option<String>> = Vec::new();
                            sent.push(tok);
                            proof {
                                assert(sent_views(sent@) =~= run_sent(token0, replies0, budget0));
                            }
                            (sent, CallOutcome::Failed(e))
                        },
                        Ok(()) => {
                            let (mut rest, outcome) = run_with(session, engine, replies);
                            let mut sent: Vec<Option<String>> = Vec::new();
                            sent.push(tok);
                            sent.append(&mut rest);
                            proof {
                                assert(sent_views(sent@) =~= run_sent(token0, replies0, budget0));
                            }
                            (sent, outcome)
                        },
                    }
                },
            }
        },
    }
}

/// Runs one call against a fixed sequence of replies with a fresh budget of
/// `MAX_RETRIES` requests, observing conflict tokens in `session` as the real
/// call loop does.
pub fn run_call(session: &mut SessionManager, replies: Vec<WireReply>) -> (r: (
    Vec<Option<String>>,
    CallOutcome,
))
    ensures
        sent_views(r.0@) == run_sent(old(session).spec_token(), replies@, MAX_RETRIES as nat),
        final(session).spec_token() == run_token(
            old(session).spec_token(),
            replies@,
            MAX_RETRIES as nat,
        ),
        r.1 == run_outcome(replies@, MAX_RETRIES as nat),
{
    let mut engine = CallEngine::new();
    run_with(session, &mut engine, replies)
}

/// A conflict reply that carries a fresh session token, so the call retries.
pub open spec fn renews_session(r: WireReply) -> bool {
    r is Conflict && r->Conflict_0 is Some
}

proof fn lemma_drive_to_delivery(
    token: Option<Seq<char>>,
    replies: Seq<WireReply>,
    k: int,
    b: nat,
)
    requires
        0 <= k < b,
        k < replies.len(),
        forall|i: int| 0 <= i < k ==> renews_session(#[trigger] replies[i]),
        replies[k] is Delivered,
    ensures
        run_outcome(replies, b) == CallOutcome::Delivered(replies[k]->Delivered_0),
        run_sent(token, replies, b).len() == k + 1,
        run_sent(token, replies, b)[k] == (if k == 0 {
            token
        } else {
            opt_str_view(replies[k - 1]->Conflict_0)
        }),
    decreases k,
{
    if k == 0 {
    } else {
        let t = replies[0]->Conflict_0->0;
        let rest = replies.drop_first();
        lemma_drive_to_delivery(Some(t@), rest, k - 1, (b - 1) as nat);
        assert(rest[k - 1] == replies[k]);
        assert(k >= 2 ==> rest[k - 2] == replies[k - 1]);
        assert(run_sent(token, replies, b) == seq![token] + run_sent(
            Some(t@),
            rest,
            (b - 1) as nat,
        ));
    }
}

/// Law: a call that meets at most `MAX_RETRIES - 1` conflict replies, each
/// carrying a session token, and then a delivered response, succeeds with
/// exactly that response after exactly `k + 1` requests; its final request
/// carries the token of the last conflict (or the starting token when there
/// was none).  Replies beyond the delivered one are never consumed.
pub proof fn lemma_retry_termination(token: Option<Seq<char>>, replies: Seq<WireReply>, k: int)
    requires
        0 <= k < MAX_RETRIES,
        k < replies.len(),
        forall|i: int| 0 <= i < k ==> renews_session(#[trigger] replies[i]),
        replies[k] is Delivered,
    ensures
        run_outcome(replies, MAX_RETRIES as nat) == CallOutcome::Delivered(
            replies[k]->Delivered_0,
        ),
        run_sent(token, replies, MAX_RETRIES as nat).len() == k + 1,
        run_sent(token, replies, MAX_RETRIES as nat)[k] == (if k == 0 {
            token
        } else {
            opt_str_view(replies[k - 1]->Conflict_0)
        }),
{
    lemma_drive_to_delivery(token, replies, k, MAX_RETRIES as nat);
}

proof fn lemma_conflicts_exhaust(token: Option<Seq<char>>, replies: Seq<WireReply>, b: nat)
    requires
        b <= replies.len(),
        forall|i: int| 0 <= i < b ==> renews_session(#[trigger] replies[i]),
    ensures
        run_outcome(replies, b) == CallOutcome::Failed(TransError::MaxRetriesReached),
        run_sent(token, replies, b).len() == b,
    decreases b,
{
    if b == 0 {
    } else {
        let t = replies[0]->Conflict_0->0;
        lemma_conflicts_exhaust(Some(t@), replies.drop_first(), (b - 1) as nat);
    }
}

/// Law: a call that meets `MAX_RETRIES` consecutive conflict replies, every
/// one carrying a session token, fails with the retry-exhausted error after
/// exactly `MAX_RETRIES` requests — no further request is issued, however
/// many replies the server would still give.
pub proof fn lemma_retry_exhaustion(token: Option<Seq<char>>, replies: Seq<WireReply>)
    requires
        replies.len() >= MAX_RETRIES,
        forall|i: int| 0 <= i < MAX_RETRIES ==> renews_session(#[trigger] replies[i]),
    ensures
        run_outcome(replies, MAX_RETRIES as nat) == CallOutcome::Failed(
            TransError::MaxRetriesReached,
        ),
        run_sent(token, replies, MAX_RETRIES as nat).len() == MAX_RETRIES,
{
    lemma_conflicts_exhaust(token, replies, MAX_RETRIES as nat);
}

proof fn lemma_drive_to_missing_header(
    token: Option<Seq<char>>,
    replies: Seq<WireReply>,
    k: int,
    b: nat,
)
    requires
        0 <= k < b,
        k < replies.len(),
        forall|i: int| 0 <= i < k ==> renews_session(#[trigger] replies[i]),
        replies[k] is Conflict,
        replies[k]->Conflict_0 is None,
    ensures
        run_outcome(replies, b) == CallOutcome::Failed(TransError::NoSessionIdReceived),
        run_sent(token, replies, b).len() == k + 1,
    decreases k,
{
    if k == 0 {
    } else {
        let t = replies[0]->Conflict_0->0;
        let rest = replies.drop_first();
        assert(rest[k - 1] == replies[k]);
        lemma_drive_to_missing_header(Some(t@), rest, k - 1, (b - 1) as nat);
    }
}

/// Law: a conflict reply without the session header ends the call at once
/// with the protocol-violation error, even while retry budget remains: the
/// call has then issued exactly the `k + 1` requests answered so far, and no
/// more.
pub proof fn lemma_missing_header_fatal(token: Option<Seq<char>>, replies: Seq<WireReply>, k: int)
    requires
        0 <= k < MAX_RETRIES,
        k < replies.len(),
        forall|i: int| 0 <= i < k ==> renews_session(#[trigger] replies[i]),
        replies[k] is Conflict,
        replies[k]->Conflict_0 is None,
    ensures
        run_outcome(replies, MAX_RETRIES as nat) == CallOutcome::Failed(
            TransError::NoSessionIdReceived,
        ),
        run_sent(token, replies, MAX_RETRIES as nat).len() == k + 1,
{
    lemma_drive_to_missing_header(token, replies, k, MAX_RETRIES as nat);
}

/// A call consumes at most one reply per request, and issues at most `b`
/// requests.
pub proof fn lemma_run_sent_len(token: Option<Seq<char>>, replies: Seq<WireReply>, b: nat)
    ensures
        run_sent(token, replies, b).len() <= replies.len(),
        run_sent(token, replies, b).len() <= b,
    decreases replies.len(),
{
    if b == 0 || replies.len() == 0 {
    } else {
        match replies.first() {
            WireReply::Conflict(h) => match h {
                Some(t) => {
                    lemma_run_sent_len(Some(t@), replies.drop_first(), (b - 1) as nat);
                },
                None => {},
            },
            WireReply::Delivered(_) => {},
        }
    }
}

/// Law: the `j`-th request of a call carries exactly the token state after
/// the first `j` replies — once a token is observed it is included in every
/// subsequent request until a newer token supersedes it.
pub proof fn lemma_token_reuse(
    token: Option<Seq<char>>,
    replies: Seq<WireReply>,
    b: nat,
    j: int,
)
    requires
        0 <= j < run_sent(token, replies, b).len(),
    ensures
        run_sent(token, replies, b)[j] == token_after(token, replies.take(j)),
    decreases j,
{
    if j == 0 {
        assert(replies.take(0) =~= Seq::<WireReply>::empty());
    } else {
        lemma_run_sent_len(token, replies, b);
        // With a second request answered, the first reply must have been a
        // renewing conflict.
        assert(renews_session(replies[0]));
        let t = replies[0]->Conflict_0->0;
        let rest = replies.drop_first();
        lemma_token_reuse(Some(t@), rest, (b - 1) as nat, j - 1);
        assert(replies.take(j).first() == replies[0]);
        assert(replies.take(j).drop_first() =~= rest.take(j - 1));
        assert(run_sent(token, replies, b) == seq![token] + run_sent(
            Some(t@),
            rest,
            (b - 1) as nat,
        ));
    }
}

/// Law: a call begun with token state `t` carries `t` on its first request.
/// In particular, a token observed during one call is carried on the first
/// request of the next call on the same client, since the session manager
/// keeps it across calls.
pub proof fn lemma_first_request_token(token: Option<Seq<char>>, replies: Seq<WireReply>, b: nat)
    requires
        run_sent(token, replies, b).len() > 0,
    ensures
        run_sent(token, replies, b)[0] == token,
{
}

/// The value of the basic-authentication header for these credentials.
pub open spec fn basic_auth_value(user: Seq<char>, password: Seq<char>) -> Seq<char> {
    "Basic "@ + base64_encoding_of(user + ":"@ + password)
}

/// The headers a request must carry, given the configured credentials and
/// the session token currently held: the content type always; the
/// authorization exactly when credentials are configured; the session header
/// exactly when a token is held.
pub open spec fn expected_headers(
    auth: Option<(Seq<char>, Seq<char>)>,
    token: Option<Seq<char>>,
) -> Seq<(Seq<char>, Seq<char>)> {
    seq![("Content-Type"@, "application/json"@)] + (match auth {
        Some(a) => seq![("Authorization"@, basic_auth_value(a.0, a.1))],
        None => Seq::empty(),
    }) + (match token {
        Some(t) => seq![("X-Transmission-Session-Id"@, t)],
        None => Seq::empty(),
    })
}

/// The character sequences behind a header list.
pub open spec fn header_views(headers: Seq<(String, String)>) -> Seq<(Seq<char>, Seq<char>)> {
    Seq::new(headers.len(), |i: int| (headers[i].0@, headers[i].1@))
}

/// One client value: the endpoint, optional credentials, and the session
/// manager.  Not safe for concurrent use; the sharable variant wraps the
/// token in a reader/writer lock instead.
pub struct TransClient {
    url: String,
    auth: Option<BasicAuth>,
    session: SessionManager,
}

impl TransClient {
    /// The configured endpoint.
    pub closed spec fn spec_url(&self) -> Seq<char> {
        self.url@
    }

    /// The configured credentials, as user and password.
    pub closed spec fn spec_auth(&self) -> Option<(Seq<char>, Seq<char>)> {
        match self.auth {
            Some(a) => Some((a.user@, a.password@)),
            None => None,
        }
    }

    /// The session token currently held.
    pub closed spec fn spec_token(&self) -> Option<Seq<char>> {
        self.session.spec_token()
    }

    /// A client for `url` with basic-authentication credentials.
    pub fn with_auth(url: String, basic_auth: BasicAuth) -> (c: TransClient)
        ensures
            c.spec_url() == url@,
            c.spec_auth() == Some((basic_auth.user@, basic_auth.password@)),
            c.spec_token() is None,
    {
        TransClient { url, auth: Some(basic_auth), session: SessionManager::new() }
    }

    /// A client for `url` without credentials.
    pub fn new(url: String) -> (c: TransClient)
        ensures
            c.spec_url() == url@,
            c.spec_auth() is None,
            c.spec_token() is None,
    {
        TransClient { url, auth: None, session: SessionManager::new() }
    }

    /// Replaces the credentials.
    pub fn set_auth(&mut self, basic_auth: BasicAuth)
        ensures
            final(self).spec_url() == old(self).spec_url(),
            final(self).spec_auth() == Some((basic_auth.user@, basic_auth.password@)),
            final(self).spec_token() == old(self).spec_token(),
    {
        self.auth = Some(basic_auth);
    }

    /// The configured endpoint.
    pub fn url(&self) -> (r: &String)
        ensures
            r@ == self.spec_url(),
    {
        &self.url
    }

    /// The token currently held, if the server has ever supplied one.
    pub fn current_token(&self) -> (r: Option<String>)
        ensures
            opt_str_view(r) == self.spec_token(),
    {
        self.session.current_token()
    }

    /// Claims one request from `engine`'s budget; see
    /// [`CallEngine::begin_attempt`].
    pub fn begin_attempt(&self, engine: &mut CallEngine) -> (r: Result<
        Option<String>,
        TransError,
    >)
        ensures
            old(engine).spec_remaining() == 0 ==> r == Err::<Option<String>, TransError>(
                TransError::MaxRetriesReached,
            ) && final(engine).spec_remaining() == 0,
            old(engine).spec_remaining() > 0 ==> final(engine).spec_remaining() == old(
                engine
            ).spec_remaining() - 1 && match r {
                Ok(t) => opt_str_view(t) == self.spec_token(),
                Err(_) => false,
            },
    {
        engine.begin_attempt(&self.session)
    }

    /// Handles a conflict reply's session header; see [`CallEngine::conflict`].
    pub fn handle_conflict(&mut self, header: Option<String>) -> (r: Result<(), TransError>)
        ensures
            final(self).spec_url() == old(self).spec_url(),
            final(self).spec_auth() == old(self).spec_auth(),
            match header {
                None => r == Err::<(), TransError>(TransError::NoSessionIdReceived) && final(
                    self
                ).spec_token() == old(self).spec_token(),
                Some(t) => r == Ok::<(), TransError>(()) && final(self).spec_token() == Some(t@),
            },
    {
        CallEngine::conflict(&mut self.session, header)
    }

    /// The headers for the next request: content type, then the
    /// authorization header when credentials are configured, then the
    /// session header when a token is held.
    pub fn request_headers(&self) -> (r: Vec<(String, String)>)
        ensures
            header_views(r@) == expected_headers(self.spec_auth(), self.spec_token()),
    {
        let mut headers: Vec<(String, String)> = Vec::new();
        headers.push(("Content-Type".to_owned(), "application/json".to_owned()));
        if let Some(a) = &self.auth {
            let mut cred = a.user.clone();
            cred.append(":");
            cred.append(a.password.as_str());
            let mut value = "Basic ".to_owned();
            let encoded = base64_encode(cred.as_str());
            value.append(encoded.as_str());
            headers.push(("Authorization".to_owned(), value));
        }
        match self.session.current_token() {
            Some(t) => headers.push(("X-Transmission-Session-Id".to_owned(), t)),
            None => (),
        }
        proof {
            assert(header_views(headers@) =~= expected_headers(
                self.spec_auth(),
                self.spec_token(),
            ));
        }
        headers
    }

    /// Runs one call against a fixed sequence of replies, as
    /// [`run_call`] does, observing conflict tokens in this client's
    /// session manager.
    pub fn call_transcript(&mut self, replies: Vec<WireReply>) -> (r: (
        Vec<Option<String>>,
        CallOutcome,
    ))
        ensures
            final(self).spec_url() == old(self).spec_url(),
            final(self).spec_auth() == old(self).spec_auth(),
            sent_views(r.0@) == run_sent(old(self).spec_token(), replies@, MAX_RETRIES as nat),
            final(self).spec_token() == run_token(
                old(self).spec_token(),
                replies@,
                MAX_RETRIES as nat,
            ),
            r.1 == run_outcome(replies@, MAX_RETRIES as nat),
    {
        run_call(&mut self.session, replies)
    }
}

} // verus!
