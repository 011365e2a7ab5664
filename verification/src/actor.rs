//! The actor document of a local account.

use vstd::prelude::*;
use vstd::string::*;

use crate::error::ResolveError;
use crate::identity::{inbox_url, user_url, ServerIdentity, ServerIdentityView};
use crate::text::trim_trailing_slashes;
use crate::username::Username;

verus! {

/// What the key store answered when asked for an account's public key.
#[derive(Debug, PartialEq, Eq)]
pub enum KeyLookup {
    /// The account has key material: the PEM text, as stored.
    Found(String),
    /// The store knows no such account.
    NotFound,
    /// The store could not be read.
    IoError,
}

/// A [`KeyLookup`] with its text as a plain sequence.
pub enum KeyLookupView {
    Found(Seq<char>),
    NotFound,
    IoError,
}

impl View for KeyLookup {
    type V = KeyLookupView;

    open spec fn view(&self) -> KeyLookupView {
        match self {
            KeyLookup::Found(pem) => KeyLookupView::Found(pem@),
            KeyLookup::NotFound => KeyLookupView::NotFound,
            KeyLookup::IoError => KeyLookupView::IoError,
        }
    }
}

/// The public key of an actor.
#[derive(Debug, PartialEq, Eq)]
pub struct PublicKey {
    /// The key's own URL: the actor's, with the fragment `#main-key`.
    pub id: String,
    /// The URL of the actor that owns the key.
    pub owner: String,
    /// The PEM-encoded key, exactly as the key store returned it.
    pub pem: String,
}

/// A [`PublicKey`] as plain sequences.
pub struct PublicKeyView {
    pub id: Seq<char>,
    pub owner: Seq<char>,
    pub pem: Seq<char>,
}

impl View for PublicKey {
    type V = PublicKeyView;

    open spec fn view(&self) -> PublicKeyView {
        PublicKeyView { id: self.id@, owner: self.owner@, pem: self.pem@ }
    }
}

/// One local account as other servers see it.
#[derive(Debug, PartialEq, Eq)]
pub struct Actor {
    /// The JSON-LD contexts of the document.
    pub context: Vec<String>,
    /// The kind of actor; always `Person`.
    pub kind: String,
    /// The canonical URL of the account.
    pub id: String,
    /// The account name.
    pub preferred_username: String,
    /// Where other servers deliver to.
    pub inbox: String,
    /// The key that signs for the account.
    pub public_key: PublicKey,
}

/// An [`Actor`] as plain sequences.
pub struct ActorView {
    pub context: Seq<Seq<char>>,
    pub kind: Seq<char>,
    pub id: Seq<char>,
    pub preferred_username: Seq<char>,
    pub inbox: Seq<char>,
    pub public_key: PublicKeyView,
}

impl View for Actor {
    type V = ActorView;

    open spec fn view(&self) -> ActorView {
        ActorView {
            context: self.context@.map_values(|c: String| c@),
            kind: self.kind@,
            id: self.id@,
            preferred_username: self.preferred_username@,
            inbox: self.inbox@,
            public_key: self.public_key@,
        }
    }
}

/// The contexts every actor document declares, in order.
pub open spec fn actor_context() -> Seq<Seq<char>> {
    seq!["https://www.w3.org/ns/activitystreams"@, "https://w3id.org/security/v1"@]
}

/// The actor document of the account `name` whose stored key is `pem`.
pub open spec fn actor_document(
    identity: ServerIdentityView,
    name: Seq<char>,
    pem: Seq<char>,
) -> ActorView {
    let id = user_url(identity.base_url, name);
    ActorView {
        context: actor_context(),
        kind: "Person"@,
        id,
        preferred_username: name,
        inbox: inbox_url(identity.base_url),
        public_key: PublicKeyView { id: id + "#main-key"@, owner: id, pem },
    }
}

/// What actor resolution answers for each answer of the key store.
pub open spec fn actor_outcome(
    identity: ServerIdentityView,
    name: Seq<char>,
    lookup: KeyLookupView,
) -> Result<ActorView, ResolveError> {
    match lookup {
        KeyLookupView::Found(pem) => Ok(actor_document(identity, name, pem)),
        KeyLookupView::NotFound => Err(ResolveError::NotFound),
        KeyLookupView::IoError => Err(ResolveError::Internal),
    }
}

/// An actor result with its document replaced by the document's view.
pub open spec fn actor_result_view(result: Result<Actor, ResolveError>) -> Result<
    ActorView,
    ResolveError,
> {
    match result {
        Ok(actor) => Ok(actor@),
        Err(e) => Err(e),
    }
}

/// Builds the actor document of `user` from the key store's answer.
///
/// A missing key means the account does not exist; a store that could not be
/// read is an internal failure. Nothing is cached: each call builds a fresh
/// document.
pub fn resolve_actor(identity: &ServerIdentity, user: &Username, lookup: KeyLookup) -> (result:
    Result<Actor, ResolveError>)
    ensures
        actor_result_view(result) == actor_outcome(identity@, user@, lookup@),
{
    let pem = match lookup {
        KeyLookup::Found(pem) => pem,
        KeyLookup::NotFound => {
            return Err(ResolveError::NotFound);
        },
        KeyLookup::IoError => {
            return Err(ResolveError::Internal);
        },
    };
    let id = identity.user_url(user);
    let mut key_id = id.clone();
    key_id.append("#main-key");
    let mut context: Vec<String> = Vec::new();
    context.push(String::from_str("https://www.w3.org/ns/activitystreams"));
    context.push(String::from_str("https://w3id.org/security/v1"));
    let actor = Actor {
        context,
        kind: String::from_str("Person"),
        id: id.clone(),
        preferred_username: String::from_str(user.as_str()),
        inbox: identity.inbox_url(),
        public_key: PublicKey { id: key_id, owner: id, pem },
    };
    proof {
        assert(actor@.context =~= actor_context());
    }
    Ok(actor)
}

/// Where the key store holds a key for an account, resolution succeeds: the
/// actor's `id` is the base URL followed by `/users/` and the account name,
/// and the key names that same `id` as its owner. This holds of every name,
/// so in particular of every valid one.
pub proof fn lemma_actor_id_and_key_owner(
    identity: ServerIdentityView,
    name: Seq<char>,
    pem: Seq<char>,
)
    ensures
        actor_outcome(identity, name, KeyLookupView::Found(pem)) matches Ok(actor) && {
            &&& actor.id == identity.base_url + "/users/"@ + name
            &&& actor.public_key.owner == actor.id
            &&& actor.public_key.id == actor.id + "#main-key"@
            &&& actor.public_key.pem == pem
            &&& actor.preferred_username == name
        },
{
}

/// For a server configured with a URL that does not end in `/`, the actor's
/// `id` is that URL, as configured, followed by `/users/` and the account
/// name.
pub proof fn lemma_actor_id_from_configured_url(
    url: Seq<char>,
    domain: Seq<char>,
    name: Seq<char>,
    pem: Seq<char>,
)
    requires
        url.len() == 0 || url.last() != '/',
    ensures
        actor_outcome(
            ServerIdentityView { base_url: trim_trailing_slashes(url), domain },
            name,
            KeyLookupView::Found(pem),
        ) matches Ok(actor) && actor.id == url + "/users/"@ + name && actor.public_key.owner
            == actor.id,
{
}

/// Resolution succeeds exactly when the key store found a key.
pub proof fn lemma_actor_found_iff_key_found(
    identity: ServerIdentityView,
    name: Seq<char>,
    lookup: KeyLookupView,
)
    ensures
        actor_outcome(identity, name, lookup) is Ok <==> lookup is Found,
        actor_outcome(identity, name, lookup) == Err::<ActorView, ResolveError>(
            ResolveError::NotFound,
        ) <==> lookup is NotFound,
        actor_outcome(identity, name, lookup) == Err::<ActorView, ResolveError>(
            ResolveError::Internal,
        ) <==> lookup is IoError,
{
}

/// Resolving the same account twice against an unchanged key store yields
/// the same document: the outcome depends on nothing but the identity, the
/// name and the text the store returned.
pub proof fn lemma_actor_is_repeatable(
    identity: &ServerIdentity,
    user: &Username,
    first: KeyLookup,
    second: KeyLookup,
)
    requires
        first@ == second@,
    ensures
        actor_outcome(identity@, user@, first@) == actor_outcome(identity@, user@, second@),
{
}

} // verus!
