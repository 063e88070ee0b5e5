//! The service: a storage backend together with the settings under which it
//! is served, and the builder that collects them.

use vstd::prelude::*;
use crate::auth::S3Auth;
use crate::s3_trait::S3;
use std::sync::Arc;

verus! {

/// What a builder has collected and a service holds, as a mathematical value.
pub struct Settings<S, A> {
    /// The storage backend.
    pub s3: S,
    /// The provider of credentials, if one was set.
    pub auth: Option<A>,
    /// The domain under which buckets are addressed as hosts, if one was set.
    pub base_domain: Option<Seq<char>>,
}

/// Collects what a service needs.
pub struct S3ServiceBuilder<S: S3, A: S3Auth> {
    s3: Arc<S>,
    auth: Option<A>,
    base_domain: Option<String>,
}

/// A storage backend ready to be served.
pub struct S3Service<S: S3, A: S3Auth> {
    s3: Arc<S>,
    auth: Option<A>,
    base_domain: Option<String>,
}

impl<S: S3, A: S3Auth> View for S3ServiceBuilder<S, A> {
    type V = Settings<S, A>;

    closed spec fn view(&self) -> Settings<S, A> {
        Settings {
            s3: *self.s3,
            auth: self.auth,
            base_domain: match self.base_domain {
                Some(domain) => Some(domain@),
                None => None,
            },
        }
    }
}

impl<S: S3, A: S3Auth> View for S3Service<S, A> {
    type V = Settings<S, A>;

    closed spec fn view(&self) -> Settings<S, A> {
        Settings {
            s3: *self.s3,
            auth: self.auth,
            base_domain: match self.base_domain {
                Some(domain) => Some(domain@),
                None => None,
            },
        }
    }
}

impl<S: S3, A: S3Auth> S3ServiceBuilder<S, A> {
    /// Starts from a storage backend, with no credentials and no base domain.
    #[must_use]
    pub fn new(s3: S) -> (builder: Self)
        ensures
            builder@ == (Settings::<S, A> { s3, auth: None, base_domain: None }),
    {
        S3ServiceBuilder { s3: Arc::new(s3), auth: None, base_domain: None }
    }

    /// Sets the provider of credentials, in place of any set before.
    pub fn set_auth(&mut self, auth: A)
        ensures
            final(self)@ == (Settings { auth: Some(auth), ..old(self)@ }),
    {
        self.auth = Some(auth);
    }

    /// Sets the base domain, in place of any set before.
    pub fn set_base_domain(&mut self, base_domain: String)
        ensures
            final(self)@ == (Settings { base_domain: Some(base_domain@), ..old(self)@ }),
    {
        self.base_domain = Some(base_domain);
    }

    /// Makes the service, which holds exactly what was collected.
    #[must_use]
    pub fn build(self) -> (service: S3Service<S, A>)
        ensures
            service@ == self@,
    {
        S3Service { s3: self.s3, auth: self.auth, base_domain: self.base_domain }
    }
}

impl<S: S3, A: S3Auth> S3Service<S, A> {
    /// The storage backend, shared.
    pub fn s3(&self) -> (shared: &Arc<S>)
        ensures
            **shared == self@.s3,
    {
        &self.s3
    }

    /// The provider of credentials, if one was set.
    pub fn auth(&self) -> (auth: Option<&A>)
        ensures
            match auth {
                Some(provider) => self@.auth == Some(*provider),
                None => self@.auth is None,
            },
    {
        match &self.auth {
            Some(provider) => Some(provider),
            None => None,
        }
    }

    /// The base domain, if one was set.
    pub fn base_domain(&self) -> (domain: Option<&str>)
        ensures
            match domain {
                Some(name) => self@.base_domain == Some(name@),
                None => self@.base_domain is None,
            },
    {
        match &self.base_domain {
            Some(name) => Some(name.as_str()),
            None => None,
        }
    }
}

} // verus!
