//! The token cache of one request and the accessor that fills it.

use crate::set_cookie::{cookie_directive, directive};
use crate::token::{
    cookie_secret, derivable, derive_token, mint_secret, presented_secret, secret_from_cookie,
    secret_string, secret_text, text_of, token_text,
};
use vstd::prelude::*;
use xsrf::{CookieToken, RequestToken};

verus! {

/// What a token cache holds, with each token in its string form.
pub struct StateView {
    /// The name under which the client keeps the secret.
    pub name: Seq<char>,
    /// The cookie secret, once resolved.
    pub secret: Option<Seq<char>>,
    /// The request token, once derived.
    pub token: Option<Seq<char>>,
    /// Whether the secret was minted for this request and is still to be sent to the client.
    pub cookie_due: bool,
}

impl StateView {
    /// The cache of a request that has not been handled yet.
    pub open spec fn fresh(name: Seq<char>) -> StateView {
        StateView { name, secret: None, token: None, cookie_due: false }
    }

    /// A token is only ever derived from the secret beside it, and a cookie is only due for a
    /// secret that is there.
    pub open spec fn wf(self) -> bool {
        &&& self.cookie_due ==> self.secret is Some
        &&& self.token is Some ==> self.secret is Some && derivable(self.secret->0, self.token->0)
    }

    /// The cache after the secret of a presented cookie was taken over. A secret that is
    /// already there stays.
    pub open spec fn adopt(self, secret: Seq<char>) -> StateView {
        if self.secret is Some {
            self
        } else {
            StateView { secret: Some(secret), ..self }
        }
    }

    /// The cache after a newly minted secret was put in, which makes its cookie due. A secret
    /// that is already there stays.
    pub open spec fn issue(self, secret: Seq<char>) -> StateView {
        if self.secret is Some {
            self
        } else {
            StateView { secret: Some(secret), cookie_due: true, ..self }
        }
    }

    /// The cache after a derived token was put in. A token that is already there stays.
    pub open spec fn cache(self, token: Seq<char>) -> StateView {
        if self.token is Some {
            self
        } else {
            StateView { token: Some(token), ..self }
        }
    }

    /// The `Set-Cookie` line that the response owes the client, if any.
    pub open spec fn set_cookie(self) -> Option<Seq<char>> {
        if self.cookie_due && self.secret is Some {
            Some(directive(self.name, self.secret->0))
        } else {
            None
        }
    }
}

/// How resolving the secret takes a cache from `pre` to `post`, for a request that presented
/// the cookie value `presented`. A resolved secret is kept. Otherwise the presented secret is
/// taken over; where the request presents none, `post` holds a secret that a client can hand
/// back, with its cookie due.
pub open spec fn secret_resolved(
    pre: StateView,
    presented: Option<Seq<char>>,
    post: StateView,
) -> bool {
    if pre.secret is Some {
        post == pre
    } else {
        match presented_secret(presented) {
            Some(secret) => post == pre.adopt(secret),
            None => {
                &&& post.secret is Some
                &&& post == pre.issue(post.secret->0)
                &&& cookie_secret(post.secret->0) == post.secret
            },
        }
    }
}

/// How one call of the accessor takes a cache from `pre` to `post` and returns `token`. A
/// cached token is returned and nothing changes. Otherwise the secret is resolved and `token`
/// is derived from it and cached.
pub open spec fn token_resolved(
    pre: StateView,
    presented: Option<Seq<char>>,
    post: StateView,
    token: Seq<char>,
) -> bool {
    if pre.token is Some {
        post == pre && pre.token == Some(token)
    } else {
        &&& secret_resolved(pre, presented, StateView { token: None, ..post })
        &&& post.secret is Some
        &&& derivable(post.secret->0, token)
        &&& post.token == Some(token)
    }
}

/// The token cache of one request. It is made before the request is handled, filled by the
/// accessor while the request is handled, and read once more when the response leaves.
pub struct RequestState {
    cookie_name: &'static str,
    cookie_secret: Option<CookieToken>,
    request_token: Option<RequestToken>,
    needs_cookie_write: bool,
}

impl View for RequestState {
    type V = StateView;

    closed spec fn view(&self) -> StateView {
        StateView {
            name: self.cookie_name@,
            secret: match self.cookie_secret {
                Some(secret) => Some(secret_text(secret)),
                None => None,
            },
            token: match self.request_token {
                Some(token) => Some(token_text(token)),
                None => None,
            },
            cookie_due: self.needs_cookie_write,
        }
    }
}

/// Access to the token of the request in hand.
pub trait RequestXSRF {
    /// The token cache behind the accessor.
    spec fn token_cache(&self) -> StateView;

    /// The request's token. The first call resolves the secret, from the cookie value that the
    /// request presented under the configured name, and derives the token; every later call
    /// returns that same token.
    fn xsrf_token(&mut self, presented: Option<&str>) -> (token: &RequestToken)
        ensures
            token_resolved(
                old(self).token_cache(),
                text_of(presented),
                final(self).token_cache(),
                token_text(*token),
            ),
            final(self).token_cache().wf(),
    ;
}

impl RequestState {
    #[verifier::type_invariant]
    spec fn inv(self) -> bool {
        self@.wf()
    }

    /// An empty cache for a request whose secret goes by `cookie_name`.
    pub fn new(cookie_name: &'static str) -> (state: Self)
        ensures
            state@ == StateView::fresh(cookie_name@),
    {
        RequestState {
            cookie_name,
            cookie_secret: None,
            request_token: None,
            needs_cookie_write: false,
        }
    }

    /// The name under which the client keeps the secret.
    pub fn cookie_name(&self) -> (name: &'static str)
        ensures
            name@ == self@.name,
    {
        self.cookie_name
    }

    /// The cookie secret, if it was resolved.
    pub fn cookie_token(&self) -> (secret: Option<&CookieToken>)
        ensures
            self@.wf(),
            match secret {
                Some(s) => self@.secret == Some(secret_text(*s)),
                None => self@.secret is None,
            },
    {
        proof {
            use_type_invariant(self);
        }
        self.cookie_secret.as_ref()
    }

    /// The request token, if it was derived.
    pub fn get_existing_request_token(&self) -> (token: Option<&RequestToken>)
        ensures
            self@.wf(),
            match token {
                Some(t) => self@.token == Some(token_text(*t)),
                None => self@.token is None,
            },
    {
        proof {
            use_type_invariant(self);
        }
        self.request_token.as_ref()
    }

    /// Whether the response has to carry the secret to the client.
    pub fn needs_cookie_write(&self) -> (due: bool)
        ensures
            self@.wf(),
            due == self@.cookie_due,
    {
        proof {
            use_type_invariant(self);
        }
        self.needs_cookie_write
    }

    /// Takes over the secret that the request presented. No cookie becomes due for it. A secret
    /// that was resolved before is never replaced.
    pub fn adopt_secret(&mut self, secret: CookieToken)
        ensures
            final(self)@ == old(self)@.adopt(secret_text(secret)),
            final(self)@.wf(),
    {
        proof {
            use_type_invariant(&*self);
        }
        if self.cookie_secret.is_none() {
            self.cookie_secret = Some(secret);
        }
    }

    /// Puts in a newly minted secret and makes its cookie due. A secret that was resolved
    /// before is never replaced.
    pub fn issue_secret(&mut self, secret: CookieToken)
        ensures
            final(self)@ == old(self)@.issue(secret_text(secret)),
            final(self)@.wf(),
    {
        proof {
            use_type_invariant(&*self);
        }
        if self.cookie_secret.is_none() {
            self.cookie_secret = Some(secret);
            self.needs_cookie_write = true;
        }
    }

    /// Caches a token that was derived from the resolved secret. A token that was cached before
    /// is never replaced.
    pub fn cache_token(&mut self, token: RequestToken)
        requires
            old(self)@.token is None ==> old(self)@.secret is Some && derivable(
                old(self)@.secret->0,
                token_text(token),
            ),
        ensures
            final(self)@ == old(self)@.cache(token_text(token)),
            final(self)@.wf(),
    {
        proof {
            use_type_invariant(&*self);
        }
        if self.request_token.is_none() {
            self.request_token = Some(token);
        }
    }

    /// Resolves the cookie secret, once per request. The secret of the presented cookie is
    /// taken over where the cookie is there and well formed; otherwise a new secret is minted
    /// and its cookie becomes due.
    pub fn ensure_cookie_token(&mut self, presented: Option<&str>)
        ensures
            secret_resolved(old(self)@, text_of(presented), final(self)@),
            final(self)@.wf(),
    {
        proof {
            use_type_invariant(&*self);
        }
        if self.cookie_secret.is_some() {
            return ;
        }
        let found = match presented {
            Some(value) => secret_from_cookie(value),
            None => None,
        };
        match found {
            Some(secret) => self.adopt_secret(secret),
            None => {
                let secret = mint_secret();
                self.issue_secret(secret);
            },
        }
    }

    /// The request's token. A cached token is returned as it is. Otherwise the secret is
    /// resolved, from the cookie value that the request presented under the configured name,
    /// and the token is derived from it and cached.
    pub fn resolve_request_token(&mut self, presented: Option<&str>) -> (token: &RequestToken)
        ensures
            token_resolved(old(self)@, text_of(presented), final(self)@, token_text(*token)),
            final(self)@.wf(),
    {
        if self.get_existing_request_token().is_none() {
            self.ensure_cookie_token(presented);
            let token = derive_token(self.cookie_secret.as_ref().unwrap());
            self.cache_token(token);
        }
        self.request_token.as_ref().unwrap()
    }

    /// The `Set-Cookie` line that the response owes the client: the name and the secret, where
    /// the secret was minted for this request, and none otherwise.
    pub fn set_cookie(&self) -> (line: Option<String>)
        ensures
            match line {
                Some(l) => self@.set_cookie() == Some(l@),
                None => self@.set_cookie() is None,
            },
    {
        proof {
            use_type_invariant(self);
        }
        if self.needs_cookie_write {
            let value = secret_string(self.cookie_secret.as_ref().unwrap());
            Some(cookie_directive(self.cookie_name, value))
        } else {
            None
        }
    }
}

impl RequestXSRF for RequestState {
    open spec fn token_cache(&self) -> StateView {
        self@
    }

    fn xsrf_token(&mut self, presented: Option<&str>) -> (token: &RequestToken) {
        self.resolve_request_token(presented)
    }
}

} // verus!
