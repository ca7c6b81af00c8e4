//! What holds of the life cycle of a request, whatever secret is minted and whatever token is
//! derived.

use crate::set_cookie::directive;
use crate::state::{secret_resolved, token_resolved, StateView};
use crate::token::{cookie_secret, derivable, presented_secret};
use vstd::prelude::*;

verus! {

/// The cache of a request that has not been handled yet is well formed.
pub proof fn lemma_fresh_is_wf(name: Seq<char>)
    ensures
        StateView::fresh(name).wf(),
{
}

/// Resolving the secret and calling the accessor keep a cache well formed: a token never
/// stands without the secret that it was derived from, and a cookie is never due without a
/// secret.
pub proof fn lemma_steps_keep_wf(
    pre: StateView,
    presented: Option<Seq<char>>,
    post: StateView,
    token: Seq<char>,
)
    requires
        pre.wf(),
    ensures
        secret_resolved(pre, presented, post) ==> post.wf(),
        token_resolved(pre, presented, post, token) ==> post.wf(),
{
}

/// Once resolved, a secret and a token stay for the rest of the request: no later step
/// replaces either, whatever cookie value it is shown.
pub proof fn lemma_resolved_stays(
    pre: StateView,
    presented: Option<Seq<char>>,
    post: StateView,
    token: Seq<char>,
)
    requires
        token_resolved(pre, presented, post, token) || secret_resolved(pre, presented, post),
    ensures
        post.name == pre.name,
        pre.secret is Some ==> post.secret == pre.secret && post.cookie_due == pre.cookie_due,
        pre.token is Some ==> post.token == pre.token,
{
}

/// Two calls of the accessor while one request is handled return the same token, and the
/// second call changes nothing.
pub proof fn lemma_accessor_idempotent(
    start: StateView,
    presented_first: Option<Seq<char>>,
    after_first: StateView,
    first: Seq<char>,
    presented_second: Option<Seq<char>>,
    after_second: StateView,
    second: Seq<char>,
)
    requires
        token_resolved(start, presented_first, after_first, first),
        token_resolved(after_first, presented_second, after_second, second),
    ensures
        second == first,
        after_second == after_first,
{
}

/// A request whose handling never calls the accessor owes the client no cookie.
pub proof fn lemma_unused_sets_no_cookie(name: Seq<char>)
    ensures
        StateView::fresh(name).set_cookie() is None,
{
}

/// Whether a cookie is due after the first use of the accessor is settled by the cookie value
/// that the request presented, and by nothing else: a cookie is due exactly if the request
/// presented no well-formed secret.
pub proof fn lemma_cookie_due_iff_none_presented(
    pre: StateView,
    presented: Option<Seq<char>>,
    post: StateView,
    token: Seq<char>,
)
    requires
        pre.wf(),
        pre.secret is None,
        token_resolved(pre, presented, post, token),
    ensures
        post.set_cookie() is Some <==> presented_secret(presented) is None,
{
}

/// A request without a cookie that calls the accessor is answered with a cookie under the
/// configured name. Its value stands for the secret that the returned token was derived from,
/// so the client can hand it back.
pub proof fn lemma_first_use_sets_cookie(pre: StateView, post: StateView, token: Seq<char>)
    requires
        pre.wf(),
        pre.secret is None,
        token_resolved(pre, None, post, token),
    ensures
        post.secret is Some,
        post.set_cookie() == Some(directive(pre.name, post.secret->0)),
        cookie_secret(post.secret->0) == post.secret,
        derivable(post.secret->0, token),
{
}

/// A request that presents the cookie of a well-formed secret is answered without a cookie,
/// and the returned token is derived from the presented secret.
pub proof fn lemma_presented_secret_is_reused(
    pre: StateView,
    value: Seq<char>,
    post: StateView,
    token: Seq<char>,
)
    requires
        pre.wf(),
        pre.secret is None,
        cookie_secret(value) is Some,
        token_resolved(pre, Some(value), post, token),
    ensures
        post.set_cookie() is None,
        post.secret == cookie_secret(value),
        derivable(cookie_secret(value)->0, token),
{
}

/// A request that presents a malformed cookie value is treated as one that presents none: the
/// accessor returns a token, and the response carries a newly minted secret.
pub proof fn lemma_malformed_cookie_is_replaced(
    pre: StateView,
    value: Seq<char>,
    post: StateView,
    token: Seq<char>,
)
    requires
        pre.wf(),
        pre.secret is None,
        cookie_secret(value) is None,
        token_resolved(pre, Some(value), post, token),
    ensures
        token_resolved(pre, None, post, token),
        post.secret is Some,
        post.set_cookie() == Some(directive(pre.name, post.secret->0)),
        cookie_secret(post.secret->0) == post.secret,
        derivable(post.secret->0, token),
{
}

/// The answer to a request goes by that request's own cache and cookie alone. So of two
/// requests under one configuration, one that calls the accessor and one that does not, the
/// first gets a cookie exactly if it presented no well-formed secret, and the second gets none.
pub proof fn lemma_requests_are_isolated(
    name: Seq<char>,
    presented: Option<Seq<char>>,
    used: StateView,
    token: Seq<char>,
)
    requires
        token_resolved(StateView::fresh(name), presented, used, token),
    ensures
        used.set_cookie() is Some <==> presented_secret(presented) is None,
        StateView::fresh(name).set_cookie() is None,
{
}

/// A `Set-Cookie` line starts with the cookie's name and an equals sign; the rest of it is the
/// value.
pub proof fn lemma_directive_shape(name: Seq<char>, value: Seq<char>)
    ensures
        directive(name, value).len() == name.len() + 1 + value.len(),
        directive(name, value).take(name.len() as int + 1) == name.push('='),
        directive(name, value).skip(name.len() as int + 1) == value,
{
    let line = directive(name, value);
    let cut = name.len() as int + 1;
    assert(line.take(cut) =~= name.push('='));
    assert(line.skip(cut) =~= value);
}

} // verus!
