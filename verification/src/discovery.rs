//! WebFinger discovery: from an `acct:` handle to a link to the actor.

use vstd::prelude::*;
use vstd::string::*;

use crate::error::ResolveError;
use crate::identity::{user_url, ServerIdentity, ServerIdentityView};
use crate::text::{find_char, same_text};
use crate::uri::{parse_uri, uri_parses, uri_path, uri_scheme, UriParts};
use crate::username::{is_valid_username, Username};

verus! {

/// The two sides of an account handle `local@host`.
#[derive(Debug, PartialEq, Eq)]
pub struct AccountHandle {
    /// The account name, left of the `@`.
    pub local: String,
    /// The domain, right of the `@`.
    pub host: String,
}

/// Whether `path` reads `local@host`: exactly one `@`, with something on both
/// sides of it.
pub open spec fn is_handle(path: Seq<char>, local: Seq<char>, host: Seq<char>) -> bool {
    &&& path == local + seq!['@'] + host
    &&& local.len() > 0
    &&& host.len() > 0
    &&& !local.contains('@')
    &&& !host.contains('@')
}

/// A path reads as a handle in at most one way: the local part is what stands
/// before the first `@`, the host what stands after it.
pub proof fn lemma_handle_splits_at_first_at(path: Seq<char>, local: Seq<char>, host: Seq<char>)
    requires
        is_handle(path, local, host),
    ensures
        local.len() < path.len(),
        path[local.len() as int] == '@',
        forall|j: int| 0 <= j < local.len() ==> path[j] != '@',
        local == path.take(local.len() as int),
        host == path.skip(local.len() as int + 1),
{
    let at = local.len() as int;
    assert forall|j: int| 0 <= j < at implies path[j] != '@' by {
        assert(path[j] == local[j]);
        assert(local.contains(local[j]));
    }
    assert(local =~= path.take(at));
    assert(host =~= path.skip(at + 1));
}

/// Two readings of one path as a handle agree.
pub proof fn lemma_handle_unique(
    path: Seq<char>,
    local1: Seq<char>,
    host1: Seq<char>,
    local2: Seq<char>,
    host2: Seq<char>,
)
    requires
        is_handle(path, local1, host1),
        is_handle(path, local2, host2),
    ensures
        local1 == local2,
        host1 == host2,
{
    lemma_handle_splits_at_first_at(path, local1, host1);
    lemma_handle_splits_at_first_at(path, local2, host2);
    if local1.len() < local2.len() {
        assert(path[local1.len() as int] == '@');
    } else if local2.len() < local1.len() {
        assert(path[local2.len() as int] == '@');
    }
}

/// Splits `path` at its first `@` and accepts it when that yields two
/// non-empty parts with no further `@`.
pub fn split_handle(path: &str) -> (handle: Option<AccountHandle>)
    ensures
        match handle {
            Some(h) => is_handle(path@, h.local@, h.host@),
            None => forall|local: Seq<char>, host: Seq<char>| !is_handle(path@, local, host),
        },
{
    let at = match find_char(path, '@') {
        Some(at) => at,
        None => {
            proof {
                assert forall|local: Seq<char>, host: Seq<char>| !is_handle(path@, local, host) by {
                    if is_handle(path@, local, host) {
                        lemma_handle_splits_at_first_at(path@, local, host);
                        assert(path@.contains(path@[local.len() as int]));
                    }
                }
            }
            return None;
        },
    };
    let len = path.unicode_len();
    let local = path.substring_char(0, at);
    let host = path.substring_char(at + 1, len);
    let well_formed = at > 0 && at + 1 < len && find_char(host, '@').is_none();
    proof {
        assert(local@ =~= path@.take(at as int));
        assert(host@ =~= path@.skip(at + 1));
        if well_formed {
            assert(path@ =~= local@ + seq!['@'] + host@);
            assert(!local@.contains('@')) by {
                if local@.contains('@') {
                    let j = choose|j: int| 0 <= j < local@.len() && local@[j] == '@';
                    assert(path@[j] == '@');
                }
            }
        } else {
            assert forall|l: Seq<char>, h: Seq<char>| !is_handle(path@, l, h) by {
                if is_handle(path@, l, h) {
                    lemma_handle_splits_at_first_at(path@, l, h);
                    if l.len() < at {
                        assert(path@[l.len() as int] == '@');
                    }
                    assert(l.len() == at);
                    assert(h == host@);
                }
            }
        }
    }
    if well_formed {
        Some(AccountHandle { local: String::from_str(local), host: String::from_str(host) })
    } else {
        None
    }
}

/// Whether a URI with this scheme and path asks about the account `local` of
/// the server that answers for `domain`: the scheme is `acct`, the path reads
/// `local@domain` (compared character by character, case included), and
/// `local` is a valid account name.
pub open spec fn names_account(
    scheme: Seq<char>,
    path: Seq<char>,
    domain: Seq<char>,
    local: Seq<char>,
) -> bool {
    &&& scheme == "acct"@
    &&& is_handle(path, local, domain)
    &&& is_valid_username(local)
}

/// Whether `resource` is a discovery query for the account `local` on
/// `domain`: it parses as a URI whose scheme and path name that account.
pub open spec fn asks_for(resource: Seq<char>, domain: Seq<char>, local: Seq<char>) -> bool {
    uri_parses(resource) && names_account(uri_scheme(resource), uri_path(resource), domain, local)
}

/// A discovery target with the account name as a plain sequence.
pub open spec fn target_view(target: Result<Username, ResolveError>) -> Result<
    Seq<char>,
    ResolveError,
> {
    match target {
        Ok(user) => Ok(user@),
        Err(e) => Err(e),
    }
}

/// Whether `target` is the right answer to a URI with this scheme and path:
/// the account it names on `domain`, or `NotFound` where it names none.
pub open spec fn is_uri_target(
    scheme: Seq<char>,
    path: Seq<char>,
    domain: Seq<char>,
    target: Result<Seq<char>, ResolveError>,
) -> bool {
    match target {
        Ok(local) => names_account(scheme, path, domain, local),
        Err(e) => {
            &&& e == ResolveError::NotFound
            &&& forall|local: Seq<char>| !names_account(scheme, path, domain, local)
        },
    }
}

/// Whether `target` is the right answer to the query `resource`: the account
/// it asks for on `domain`, or `NotFound` where it asks for none.
pub open spec fn is_target(
    resource: Seq<char>,
    domain: Seq<char>,
    target: Result<Seq<char>, ResolveError>,
) -> bool {
    match target {
        Ok(local) => asks_for(resource, domain, local),
        Err(e) => {
            &&& e == ResolveError::NotFound
            &&& forall|local: Seq<char>| !asks_for(resource, domain, local)
        },
    }
}

/// The checks that follow URI parsing: scheme, handle syntax, domain, and
/// validity of the account name. Any failure is reported as not found.
pub fn account_in_uri(identity: &ServerIdentity, uri: &UriParts) -> (target: Result<
    Username,
    ResolveError,
>)
    ensures
        is_uri_target(uri.scheme@, uri.path@, identity@.domain, target_view(target)),
{
    if !same_text(uri.scheme.as_str(), "acct") {
        return Err(ResolveError::NotFound);
    }
    let handle = match split_handle(uri.path.as_str()) {
        Some(handle) => handle,
        None => {
            return Err(ResolveError::NotFound);
        },
    };
    proof {
        assert forall|local: Seq<char>|
            names_account(uri.scheme@, uri.path@, identity@.domain, local) implies local
            == handle.local@ && identity@.domain == handle.host@ by {
            lemma_handle_unique(
                uri.path@,
                local,
                identity@.domain,
                handle.local@,
                handle.host@,
            );
        }
    }
    if !same_text(handle.host.as_str(), identity.domain()) {
        return Err(ResolveError::NotFound);
    }
    Username::parse(handle.local.as_str())
}

/// The first half of discovery: parses `resource` and says which local
/// account the host must look up in its user directory.
///
/// Fails with `NotFound`, without naming the reason, unless `resource` is an
/// `acct:` URI for a validly named account on this server's domain.
pub fn discovery_target(identity: &ServerIdentity, resource: &str) -> (target: Result<
    Username,
    ResolveError,
>)
    ensures
        is_target(resource@, identity@.domain, target_view(target)),
{
    match parse_uri(resource) {
        Ok(uri) => account_in_uri(identity, &uri),
        Err(_) => Err(ResolveError::NotFound),
    }
}

/// A query has one right answer: whoever computes the target of the same
/// resource on the same domain twice gets the same account, or twice
/// `NotFound`.
pub proof fn lemma_target_is_unique(
    resource: Seq<char>,
    domain: Seq<char>,
    first: Result<Seq<char>, ResolveError>,
    second: Result<Seq<char>, ResolveError>,
)
    requires
        is_target(resource, domain, first),
        is_target(resource, domain, second),
    ensures
        first == second,
{
    if let Ok(local1) = first {
        if let Ok(local2) = second {
            lemma_handle_unique(uri_path(resource), local1, domain, local2, domain);
        }
    }
}

/// A resource that is not of the form `acct:local@host` is not found: where
/// the text does not parse as a URI, or the scheme is not `acct`, or the path
/// does not read as a handle, the only right answer is `NotFound`, whatever
/// the server's domain.
pub proof fn lemma_malformed_resource_is_not_found(
    resource: Seq<char>,
    domain: Seq<char>,
    target: Result<Seq<char>, ResolveError>,
)
    requires
        !uri_parses(resource) || uri_scheme(resource) != "acct"@ || forall|
            local: Seq<char>,
            host: Seq<char>,
        | !is_handle(uri_path(resource), local, host),
        is_target(resource, domain, target),
    ensures
        target == Err::<Seq<char>, ResolveError>(ResolveError::NotFound),
{
}

/// A handle for another domain is not found: the server vouches only for
/// accounts on its own domain, compared case-sensitively.
pub proof fn lemma_foreign_domain_is_not_found(
    resource: Seq<char>,
    domain: Seq<char>,
    local: Seq<char>,
    host: Seq<char>,
    target: Result<Seq<char>, ResolveError>,
)
    requires
        is_handle(uri_path(resource), local, host),
        host != domain,
        is_target(resource, domain, target),
    ensures
        target == Err::<Seq<char>, ResolveError>(ResolveError::NotFound),
{
    if let Ok(found) = target {
        lemma_handle_unique(uri_path(resource), found, domain, local, host);
    }
}

/// A well-formed handle for this server's domain is accepted: an `acct` URI
/// whose path is a valid account name, an `@`, and the domain has that
/// account as its target.
pub proof fn lemma_own_handle_is_accepted(
    path: Seq<char>,
    domain: Seq<char>,
    local: Seq<char>,
    target: Result<Seq<char>, ResolveError>,
)
    requires
        is_handle(path, local, domain),
        is_valid_username(local),
        is_uri_target("acct"@, path, domain, target),
    ensures
        target == Ok::<Seq<char>, ResolveError>(local),
{
    if let Ok(found) = target {
        lemma_handle_unique(path, found, domain, local, domain);
    } else {
        assert(names_account("acct"@, path, domain, local));
    }
}

/// One link of a discovery document.
#[derive(Debug, PartialEq, Eq)]
pub struct Link {
    /// The link relation.
    pub rel: String,
    /// The media type of the linked document.
    pub media_type: String,
    /// Where the linked document lives.
    pub href: String,
}

/// A [`Link`] as plain sequences.
pub struct LinkView {
    pub rel: Seq<char>,
    pub media_type: Seq<char>,
    pub href: Seq<char>,
}

impl View for Link {
    type V = LinkView;

    open spec fn view(&self) -> LinkView {
        LinkView { rel: self.rel@, media_type: self.media_type@, href: self.href@ }
    }
}

/// The answer to a discovery query.
#[derive(Debug, PartialEq, Eq)]
pub struct DiscoveryDocument {
    /// The handle that was asked about, as `acct:local@domain`.
    pub subject: String,
    /// Where to find the account; always the one link to its actor document.
    pub links: Vec<Link>,
}

/// A [`DiscoveryDocument`] as plain sequences.
pub struct DiscoveryDocumentView {
    pub subject: Seq<char>,
    pub links: Seq<LinkView>,
}

impl View for DiscoveryDocument {
    type V = DiscoveryDocumentView;

    open spec fn view(&self) -> DiscoveryDocumentView {
        DiscoveryDocumentView {
            subject: self.subject@,
            links: self.links@.map_values(|link: Link| link@),
        }
    }
}

/// The document that answers a query for the existing account `local`.
pub open spec fn discovery_document(
    identity: ServerIdentityView,
    local: Seq<char>,
) -> DiscoveryDocumentView {
    DiscoveryDocumentView {
        subject: "acct:"@ + local + "@"@ + identity.domain,
        links: seq![
            LinkView {
                rel: "self"@,
                media_type: "application/activity+json"@,
                href: user_url(identity.base_url, local),
            },
        ],
    }
}

/// What discovery answers once the user directory has said whether `local`
/// exists.
pub open spec fn discovery_outcome(
    identity: ServerIdentityView,
    local: Seq<char>,
    exists: bool,
) -> Result<DiscoveryDocumentView, ResolveError> {
    if exists {
        Ok(discovery_document(identity, local))
    } else {
        Err(ResolveError::NotFound)
    }
}

/// A discovery result with its document replaced by the document's view.
pub open spec fn discovery_result_view(
    result: Result<DiscoveryDocument, ResolveError>,
) -> Result<DiscoveryDocumentView, ResolveError> {
    match result {
        Ok(doc) => Ok(doc@),
        Err(e) => Err(e),
    }
}

/// The second half of discovery: `exists` is the user directory's answer for
/// `user`. An existing account gets its document, any other is not found.
pub fn resolve_discovery(identity: &ServerIdentity, user: &Username, exists: bool) -> (result:
    Result<DiscoveryDocument, ResolveError>)
    ensures
        discovery_result_view(result) == discovery_outcome(identity@, user@, exists),
{
    if !exists {
        return Err(ResolveError::NotFound);
    }
    let mut subject = String::from_str("acct:");
    subject.append(user.as_str());
    subject.append("@");
    subject.append(identity.domain());
    let link = Link {
        rel: String::from_str("self"),
        media_type: String::from_str("application/activity+json"),
        href: identity.user_url(user),
    };
    let mut links: Vec<Link> = Vec::new();
    links.push(link);
    let doc = DiscoveryDocument { subject, links };
    proof {
        assert(doc@.links =~= discovery_document(identity@, user@).links);
    }
    Ok(doc)
}

/// Discovery as a whole: the answer to a query whose target is `target`,
/// given what the user directory said about that target. A query without a
/// target fails before the directory is asked, so `exists` is then ignored.
pub open spec fn discovery_answer(
    identity: ServerIdentityView,
    target: Result<Seq<char>, ResolveError>,
    exists: bool,
) -> Result<DiscoveryDocumentView, ResolveError> {
    match target {
        Ok(local) => discovery_outcome(identity, local, exists),
        Err(e) => Err(e),
    }
}

/// Discovery never fails with anything but `NotFound`, and it succeeds
/// exactly when the resource asks for an account of this server that the
/// user directory knows.
pub proof fn lemma_discovery_succeeds_iff(
    identity: ServerIdentityView,
    resource: Seq<char>,
    target: Result<Seq<char>, ResolveError>,
    exists: bool,
)
    requires
        is_target(resource, identity.domain, target),
    ensures
        discovery_answer(identity, target, exists) is Ok <==> exists && exists|local: Seq<char>|
            asks_for(resource, identity.domain, local),
        discovery_answer(identity, target, exists) matches Err(e) ==> e == ResolveError::NotFound,
{
    if let Ok(local) = target {
        assert(asks_for(resource, identity.domain, local));
    }
}

/// Asking the same question twice, of an unchanged user directory, yields the
/// same answer: both the target and the document are determined by the
/// identity, the resource and the directory's reply.
pub proof fn lemma_discovery_is_repeatable(
    identity: ServerIdentityView,
    resource: Seq<char>,
    exists: bool,
    first: Result<Seq<char>, ResolveError>,
    second: Result<Seq<char>, ResolveError>,
)
    requires
        is_target(resource, identity.domain, first),
        is_target(resource, identity.domain, second),
    ensures
        discovery_answer(identity, first, exists) == discovery_answer(identity, second, exists),
{
    lemma_target_is_unique(resource, identity.domain, first, second);
}

/// An account that the user directory does not know is not found; one that it
/// knows gets a document whose subject is its handle and whose single link
/// points to its actor URL.
pub proof fn lemma_discovery_follows_directory(
    identity: ServerIdentityView,
    local: Seq<char>,
    exists: bool,
)
    ensures
        !exists ==> discovery_outcome(identity, local, exists) == Err::<
            DiscoveryDocumentView,
            ResolveError,
        >(ResolveError::NotFound),
        exists ==> (discovery_outcome(identity, local, exists) matches Ok(doc) && {
            &&& doc.subject == "acct:"@ + local + "@"@ + identity.domain
            &&& doc.links.len() == 1
            &&& doc.links[0].href == identity.base_url + "/users/"@ + local
        }),
{
}

} // verus!
