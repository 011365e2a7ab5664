//! The server's own identity and the URLs derived from it.

use vstd::prelude::*;
use vstd::string::*;

use crate::text::{
    lemma_trimmed_has_no_trailing_slash, trim_trailing_slashes, without_trailing_slashes,
};
use crate::username::Username;

verus! {

/// The public base URL and the domain this server answers for.
///
/// Built once from configuration and passed to every operation. The domain is
/// trusted as configured: nothing checks it against the base URL's host.
#[derive(Debug, PartialEq, Eq)]
pub struct ServerIdentity {
    base_url: String,
    domain: String,
}

/// What a [`ServerIdentity`] holds, as plain sequences.
pub struct ServerIdentityView {
    /// The base URL without a trailing `/`.
    pub base_url: Seq<char>,
    /// The domain, as configured.
    pub domain: Seq<char>,
}

impl View for ServerIdentity {
    type V = ServerIdentityView;

    closed spec fn view(&self) -> ServerIdentityView {
        ServerIdentityView { base_url: self.base_url@, domain: self.domain@ }
    }
}

/// The URL of the account `name` under `base`.
pub open spec fn user_url(base: Seq<char>, name: Seq<char>) -> Seq<char> {
    base + "/users/"@ + name
}

/// The URL of the shared inbox under `base`.
pub open spec fn inbox_url(base: Seq<char>) -> Seq<char> {
    base + "/inbox"@
}

impl ServerIdentity {
    /// Takes the configured URL and domain. Slashes at the end of `url` are
    /// dropped, so that paths can be appended with a single `/`.
    pub fn new(url: &str, domain: &str) -> (identity: ServerIdentity)
        ensures
            identity@.base_url == trim_trailing_slashes(url@),
            identity@.base_url.len() > 0 ==> identity@.base_url.last() != '/',
            identity@.domain == domain@,
    {
        proof {
            lemma_trimmed_has_no_trailing_slash(url@);
        }
        ServerIdentity { base_url: without_trailing_slashes(url), domain: String::from_str(domain) }
    }

    /// The base URL, without a trailing `/`.
    pub fn base_url(&self) -> (url: &str)
        ensures
            url@ == self@.base_url,
    {
        self.base_url.as_str()
    }

    /// The domain this server vouches for.
    pub fn domain(&self) -> (domain: &str)
        ensures
            domain@ == self@.domain,
    {
        self.domain.as_str()
    }

    /// The canonical URL of `user`'s actor document.
    pub fn user_url(&self, user: &Username) -> (url: String)
        ensures
            url@ == user_url(self@.base_url, user@),
    {
        let mut url = self.base_url.clone();
        url.append("/users/");
        url.append(user.as_str());
        url
    }

    /// The URL of the inbox, shared by all accounts.
    pub fn inbox_url(&self) -> (url: String)
        ensures
            url@ == inbox_url(self@.base_url),
    {
        let mut url = self.base_url.clone();
        url.append("/inbox");
        url
    }
}

} // verus!
