//! The sharable client: the same engine, with the session token behind a
//! reader/writer lock so that one client value can serve concurrent calls.
//!
//! Token lookups take a shared read lock; storing a fresh token takes the
//! exclusive write lock.  Nothing else differs from [`crate::TransClient`]:
//! the retry budget, the error taxonomy and the codec are the same, so a
//! call's outcome and request count still follow `run_outcome` and
//! `run_count` — only the token a concurrent request carries depends on the
//! interleaving of observations.

use vstd::prelude::*;
use vstd::rwlock::RwLock;
use vstd::string::StringExecFns;

use crate::b64::base64_encode;
use crate::client::{
    expected_headers, header_views, run_count, run_outcome, CallEngine, CallOutcome, WireReply,
};
use crate::types::BasicAuth;
use crate::{TransError, MAX_RETRIES};

verus! {

/// One client value safe for concurrent use: the endpoint and credentials
/// are immutable for its lifetime, and the session token sits behind a
/// reader/writer lock.
pub struct SharableTransClient {
    url: String,
    auth: Option<BasicAuth>,
    session_id: RwLock<Option<String>, spec_fn(Option<String>) -> bool>,
}

impl SharableTransClient {
    /// Any token value may sit in the lock.
    #[verifier::type_invariant]
    spec fn wf(&self) -> bool {
        forall|v: Option<String>| self.session_id.inv(v)
    }

    /// The configured endpoint.
    pub closed spec fn spec_url(&self) -> Seq<char> {
        self.url@
    }

    /// The configured credentials, as user and password.
    pub closed spec fn spec_auth(&self) -> Option<(Seq<char>, Seq<char>)> {
        match self.auth {
            Some(a) => Some((a.user@, a.password@)),
            None => None,
        }
    }

    /// A sharable client for `url` with basic-authentication credentials.
    pub fn with_auth(url: String, basic_auth: BasicAuth) -> (c: SharableTransClient)
        ensures
            c.spec_url() == url@,
            c.spec_auth() == Some((basic_auth.user@, basic_auth.password@)),
    {
        SharableTransClient {
            url,
            auth: Some(basic_auth),
            session_id: RwLock::new(None, Ghost(|v: Option<String>| true)),
        }
    }

    /// A sharable client for `url` without credentials.
    pub fn new(url: String) -> (c: SharableTransClient)
        ensures
            c.spec_url() == url@,
            c.spec_auth() is None,
    {
        SharableTransClient {
            url,
            auth: None,
            session_id: RwLock::new(None, Ghost(|v: Option<String>| true)),
        }
    }

    /// Replaces the credentials.  Not synchronized against in-flight calls;
    /// sequencing replacements is the caller's concern.
    pub fn set_auth(&mut self, basic_auth: BasicAuth)
        ensures
            final(self).spec_url() == old(self).spec_url(),
            final(self).spec_auth() == Some((basic_auth.user@, basic_auth.password@)),
    {
        proof {
            use_type_invariant(&*self);
        }
        self.auth = Some(basic_auth);
    }

    /// The configured endpoint.
    pub fn url(&self) -> (r: &String)
        ensures
            r@ == self.spec_url(),
    {
        &self.url
    }

    /// A snapshot of the token, under a shared read lock.
    pub fn current_token(&self) -> Option<String> {
        proof {
            use_type_invariant(self);
        }
        let handle = self.session_id.acquire_read();
        let token = match handle.borrow() {
            None => None,
            Some(t) => Some(t.clone()),
        };
        handle.release_read();
        token
    }

    /// Stores `token`, replacing any earlier one, under the exclusive write
    /// lock.  This is the only mutation of the token.
    pub fn observe(&self, token: String) {
        proof {
            use_type_invariant(self);
        }
        let (_, handle) = self.session_id.acquire_write();
        handle.release_write(Some(token));
    }

    /// Handles a conflict reply: a missing session header is fatal;
    /// otherwise the token is stored for every later request.
    pub fn handle_conflict(&self, header: Option<String>) -> (r: Result<(), TransError>)
        ensures
            r is Err <==> header is None,
            r is Err ==> r == Err::<(), TransError>(TransError::NoSessionIdReceived),
    {
        match header {
            None => Err(TransError::NoSessionIdReceived),
            Some(t) => {
                self.observe(t);
                Ok(())
            },
        }
    }

    /// The headers for the next request, built from a token snapshot taken
    /// under the read lock: content type, then the authorization header when
    /// credentials are configured, then the session header when the snapshot
    /// held a token.
    pub fn request_headers(&self) -> (r: Vec<(String, String)>)
        ensures
            exists|token: Option<Seq<char>>|
                header_views(r@) == expected_headers(self.spec_auth(), token),
    {
        let token = self.current_token();
        let ghost token_view = crate::client::opt_str_view(token);
        let mut headers: Vec<(String, String)> = Vec::new();
        headers.push(("Content-Type".to_owned(), "application/json".to_owned()));
        if let Some(a) = &self.auth {
            let mut cred = a.user.clone();
            cred.append(":");
            cred.append(a.password.as_str());
            let mut value = "Basic ".to_owned();
            let encoded = base64_encode(cred.as_str());
            value.append(encoded.as_str());
            headers.push(("Authorization".to_owned(), value));
        }
        match token {
            Some(t) => headers.push(("X-Transmission-Session-Id".to_owned(), t)),
            None => (),
        }
        proof {
            assert(header_views(headers@) =~= expected_headers(self.spec_auth(), token_view));
        }
        headers
    }

    /// Runs one call against a fixed sequence of replies, observing conflict
    /// tokens through the lock.  The outcome and the number of requests
    /// issued are exactly those of the single-owner engine; which token each
    /// request carries depends on concurrent observations, so nothing is
    /// claimed of it.
    pub fn call_transcript(&self, replies: Vec<WireReply>) -> (r: (
        Vec<Option<String>>,
        CallOutcome,
    ))
        ensures
            r.0@.len() == run_count(replies@, MAX_RETRIES as nat),
            r.1 == run_outcome(replies@, MAX_RETRIES as nat),
    {
        let mut engine = CallEngine::new();
        let mut pending = replies;
        let mut sent: Vec<Option<String>> = Vec::new();
        loop
            invariant
                0 <= engine.spec_remaining() <= MAX_RETRIES,
                run_count(pending@, engine.spec_remaining() as nat) + sent@.len() == run_count(
                    replies@,
                    MAX_RETRIES as nat,
                ),
                run_outcome(pending@, engine.spec_remaining() as nat) == run_outcome(
                    replies@,
                    MAX_RETRIES as nat,
                ),
            decreases engine.spec_remaining(),
        {
            let token = self.current_token();
            match engine.claim() {
                Err(e) => {
                    return (sent, CallOutcome::Failed(e));
                },
                Ok(()) => {
                    if pending.len() == 0 {
                        return (sent, CallOutcome::AwaitingReply);
                    }
                    let ghost pending0 = pending@;
                    let reply = pending.remove(0);
                    proof {
                        assert(pending@ =~= pending0.drop_first());
                    }
                    match reply {
                        WireReply::Delivered(v) => {
                            sent.push(token);
                            return (sent, CallOutcome::Delivered(v));
                        },
                        WireReply::Conflict(header) => {
                            sent.push(token);
                            match self.handle_conflict(header) {
                                Err(e) => {
                                    return (sent, CallOutcome::Failed(e));
                                },
                                Ok(()) => (),
                            }
                        },
                    }
                },
            }
        }
    }
}

} // verus!
