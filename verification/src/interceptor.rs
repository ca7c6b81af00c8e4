//! The interceptor: what happens before a request reaches the wrapped stage and after the
//! stage has answered.

use crate::state::{RequestState, StateView};
use vstd::prelude::*;

verus! {

/// The configuration of the protection: the name under which clients keep the secret.
#[derive(Clone, Copy)]
pub struct ProtectXSRF {
    cookie_name: &'static str,
}

impl ProtectXSRF {
    /// The configured cookie name.
    pub closed spec fn name(&self) -> Seq<char> {
        self.cookie_name@
    }

    /// Protection that stores the secret under `cookie_name`.
    pub fn new(cookie_name: &'static str) -> (config: Self)
        ensures
            config.name() == cookie_name@,
    {
        ProtectXSRF { cookie_name }
    }

    /// The configured cookie name.
    pub fn cookie_name(&self) -> (cookie_name: &'static str)
        ensures
            cookie_name@ == self.name(),
    {
        self.cookie_name
    }

    /// Wraps a stage of the pipeline.
    pub fn new_transform<S>(&self, service: S) -> (transform: ProtectXSRFTransform<S>)
        ensures
            transform.config() == *self,
            transform.wrapped() == service,
    {
        ProtectXSRFTransform { config: *self, service }
    }
}

/// A stage of the pipeline with the protection around it.
pub struct ProtectXSRFTransform<S> {
    config: ProtectXSRF,
    service: S,
}

impl<S> ProtectXSRFTransform<S> {
    /// The configuration that the stage was wrapped with.
    pub closed spec fn config(&self) -> ProtectXSRF {
        self.config
    }

    /// The wrapped stage.
    pub closed spec fn wrapped(&self) -> S {
        self.service
    }

    /// The wrapped stage.
    pub fn service(&self) -> (service: &S)
        ensures
            *service == self.wrapped(),
    {
        &self.service
    }

    /// The wrapped stage, for calling it.
    pub fn service_mut(&mut self) -> (service: &mut S)
        ensures
            *service == old(self).wrapped(),
            final(self).wrapped() == *final(service),
            final(self).config() == old(self).config(),
    {
        &mut self.service
    }

    /// Runs before the wrapped stage sees a request: the empty token cache that is attached to
    /// the request.
    pub fn pre_hook(&self) -> (state: RequestState)
        ensures
            state@ == StateView::fresh(self.config().name()),
    {
        RequestState::new(self.config.cookie_name)
    }
}

/// Runs after the wrapped stage has answered, on the token cache as the stage left it: the
/// `Set-Cookie` line to append to the response. A stage that failed gets no cookie; its failure
/// is passed on as it is.
pub fn post_hook(state: &RequestState, completed: bool) -> (line: Option<String>)
    ensures
        match line {
            Some(l) => completed && state@.set_cookie() == Some(l@),
            None => !completed || state@.set_cookie() is None,
        },
{
    if completed {
        state.set_cookie()
    } else {
        None
    }
}

} // verus!
