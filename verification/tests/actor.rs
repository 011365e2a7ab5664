use identity_resolver::actor::{resolve_actor, Actor, KeyLookup, PublicKey};
use identity_resolver::error::ResolveError;
use identity_resolver::identity::ServerIdentity;
use identity_resolver::username::Username;

fn social() -> ServerIdentity {
    ServerIdentity::new("https://social.example/", "social.example")
}

#[test]
fn bob_scenario() {
    let identity = social();
    let bob = Username::parse("bob").unwrap();
    let pem = "----BEGIN...bob-key...END----";
    let actor = resolve_actor(&identity, &bob, KeyLookup::Found(pem.to_string())).unwrap();
    let expected = Actor {
        context: vec![
            "https://www.w3.org/ns/activitystreams".to_string(),
            "https://w3id.org/security/v1".to_string(),
        ],
        kind: "Person".to_string(),
        id: "https://social.example/users/bob".to_string(),
        preferred_username: "bob".to_string(),
        inbox: "https://social.example/inbox".to_string(),
        public_key: PublicKey {
            id: "https://social.example/users/bob#main-key".to_string(),
            owner: "https://social.example/users/bob".to_string(),
            pem: pem.to_string(),
        },
    };
    assert_eq!(actor, expected);
}

#[test]
fn actor_id_is_base_users_name() {
    let identity = ServerIdentity::new("https://example.org", "example.org");
    for name in ["alice", "a.b", "zoë", "x"] {
        let user = Username::parse(name).unwrap();
        let actor = resolve_actor(&identity, &user, KeyLookup::Found("KEY".to_string())).unwrap();
        assert_eq!(actor.id, format!("{}/users/{}", "https://example.org", name));
        assert_eq!(actor.public_key.owner, actor.id);
        assert_eq!(actor.public_key.id, format!("{}#main-key", actor.id));
        assert_eq!(actor.preferred_username, name);
        assert_eq!(actor.inbox, "https://example.org/inbox");
    }
}

#[test]
fn base_url_with_path_is_kept() {
    let identity = ServerIdentity::new("https://example.org/social/", "example.org");
    let user = Username::parse("alice").unwrap();
    let actor = resolve_actor(&identity, &user, KeyLookup::Found("KEY".to_string())).unwrap();
    assert_eq!(actor.id, "https://example.org/social/users/alice");
    assert_eq!(actor.inbox, "https://example.org/social/inbox");
}

#[test]
fn pem_is_passed_through_unchanged() {
    let identity = social();
    let user = Username::parse("bob").unwrap();
    let pem = "-----BEGIN PUBLIC KEY-----\nMIIB\n-----END PUBLIC KEY-----\n";
    let actor = resolve_actor(&identity, &user, KeyLookup::Found(pem.to_string())).unwrap();
    assert_eq!(actor.public_key.pem, pem);
}

#[test]
fn missing_key_is_not_found() {
    let identity = social();
    let user = Username::parse("ghost").unwrap();
    assert_eq!(resolve_actor(&identity, &user, KeyLookup::NotFound), Err(ResolveError::NotFound));
}

#[test]
fn unreadable_key_is_internal() {
    let identity = social();
    let user = Username::parse("bob").unwrap();
    assert_eq!(resolve_actor(&identity, &user, KeyLookup::IoError), Err(ResolveError::Internal));
}

#[test]
fn resolving_twice_gives_the_same_actor() {
    let identity = social();
    let user = Username::parse("bob").unwrap();
    let first = resolve_actor(&identity, &user, KeyLookup::Found("KEY".to_string()));
    let second = resolve_actor(&identity, &user, KeyLookup::Found("KEY".to_string()));
    assert_eq!(first, second);
    assert!(first.is_ok());
}

#[test]
fn identity_keeps_domain_and_trims_base() {
    let identity = social();
    assert_eq!(identity.base_url(), "https://social.example");
    assert_eq!(identity.domain(), "social.example");
    let bob = Username::parse("bob").unwrap();
    assert_eq!(identity.user_url(&bob), "https://social.example/users/bob");
    assert_eq!(identity.inbox_url(), "https://social.example/inbox");
}
