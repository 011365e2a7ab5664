use identity_resolver::discovery::{
    account_in_uri, discovery_target, resolve_discovery, split_handle, AccountHandle,
    DiscoveryDocument, Link,
};
use identity_resolver::error::ResolveError;
use identity_resolver::identity::ServerIdentity;
use identity_resolver::uri::UriParts;
use identity_resolver::username::Username;

fn example() -> ServerIdentity {
    ServerIdentity::new("https://example.com", "example.com")
}

fn uri(scheme: &str, path: &str) -> UriParts {
    UriParts { scheme: scheme.to_string(), path: path.to_string() }
}

#[test]
fn alice_on_own_domain_is_found() {
    let identity = example();
    let user = discovery_target(&identity, "acct:alice@example.com").unwrap();
    assert_eq!(user.as_str(), "alice");
    let doc = resolve_discovery(&identity, &user, true).unwrap();
    let expected = DiscoveryDocument {
        subject: "acct:alice@example.com".to_string(),
        links: vec![Link {
            rel: "self".to_string(),
            media_type: "application/activity+json".to_string(),
            href: "https://example.com/users/alice".to_string(),
        }],
    };
    assert_eq!(doc, expected);
}

#[test]
fn alice_on_other_domain_is_not_found() {
    let identity = ServerIdentity::new("https://other.com", "other.com");
    assert_eq!(discovery_target(&identity, "acct:alice@example.com"), Err(ResolveError::NotFound));
}

#[test]
fn unknown_alice_is_not_found() {
    let identity = example();
    let user = discovery_target(&identity, "acct:alice@example.com").unwrap();
    assert_eq!(resolve_discovery(&identity, &user, false), Err(ResolveError::NotFound));
}

#[test]
fn domain_is_compared_case_sensitively() {
    let identity = example();
    assert_eq!(discovery_target(&identity, "acct:alice@Example.com"), Err(ResolveError::NotFound));
    assert_eq!(discovery_target(&identity, "acct:alice@EXAMPLE.COM"), Err(ResolveError::NotFound));
}

#[test]
fn text_without_scheme_is_not_found() {
    let identity = example();
    assert_eq!(discovery_target(&identity, "alice@example.com"), Err(ResolveError::NotFound));
    assert_eq!(discovery_target(&identity, ""), Err(ResolveError::NotFound));
    assert_eq!(discovery_target(&identity, "not a uri"), Err(ResolveError::NotFound));
}

#[test]
fn other_scheme_is_not_found() {
    let identity = example();
    assert_eq!(discovery_target(&identity, "mailto:alice@example.com"), Err(ResolveError::NotFound));
    assert_eq!(
        discovery_target(&identity, "https://example.com/users/alice"),
        Err(ResolveError::NotFound)
    );
}

#[test]
fn handle_without_at_is_not_found() {
    let identity = example();
    assert_eq!(discovery_target(&identity, "acct:alice"), Err(ResolveError::NotFound));
    assert_eq!(discovery_target(&identity, "acct:"), Err(ResolveError::NotFound));
}

#[test]
fn handle_with_empty_side_is_not_found() {
    let identity = example();
    assert_eq!(discovery_target(&identity, "acct:@example.com"), Err(ResolveError::NotFound));
    assert_eq!(discovery_target(&identity, "acct:alice@"), Err(ResolveError::NotFound));
    assert_eq!(discovery_target(&identity, "acct:@"), Err(ResolveError::NotFound));
}

#[test]
fn handle_with_extra_at_is_not_found() {
    let identity = example();
    assert_eq!(discovery_target(&identity, "acct:a@b@example.com"), Err(ResolveError::NotFound));
    assert_eq!(discovery_target(&identity, "acct:alice@example.com@"), Err(ResolveError::NotFound));
    let odd = ServerIdentity::new("https://example.com", "b@example.com");
    assert_eq!(discovery_target(&odd, "acct:a@b@example.com"), Err(ResolveError::NotFound));
}

#[test]
fn authority_form_is_not_found() {
    let identity = example();
    assert_eq!(discovery_target(&identity, "acct://alice@example.com"), Err(ResolveError::NotFound));
}

#[test]
fn traversal_in_local_part_is_not_found() {
    let identity = example();
    assert_eq!(discovery_target(&identity, "acct:..@example.com"), Err(ResolveError::NotFound));
    assert_eq!(discovery_target(&identity, "acct:.@example.com"), Err(ResolveError::NotFound));
    assert_eq!(discovery_target(&identity, "acct:../bob@example.com"), Err(ResolveError::NotFound));
    assert_eq!(discovery_target(&identity, "acct:a/b@example.com"), Err(ResolveError::NotFound));
}

#[test]
fn scheme_case_is_left_to_the_uri_parser() {
    let identity = example();
    let user = discovery_target(&identity, "ACCT:alice@example.com").unwrap();
    assert_eq!(user.as_str(), "alice");
}

#[test]
fn query_is_not_part_of_the_handle() {
    let identity = example();
    let user = discovery_target(&identity, "acct:alice@example.com?rel=self").unwrap();
    assert_eq!(user.as_str(), "alice");
}

#[test]
fn parts_with_acct_scheme_name_the_account() {
    let identity = example();
    let user = account_in_uri(&identity, &uri("acct", "alice@example.com")).unwrap();
    assert_eq!(user.as_str(), "alice");
}

#[test]
fn parts_with_other_scheme_are_not_found() {
    let identity = example();
    assert_eq!(
        account_in_uri(&identity, &uri("http", "alice@example.com")),
        Err(ResolveError::NotFound)
    );
    assert_eq!(
        account_in_uri(&identity, &uri("ACCT", "alice@example.com")),
        Err(ResolveError::NotFound)
    );
}

#[test]
fn parts_with_foreign_host_are_not_found() {
    let identity = example();
    assert_eq!(
        account_in_uri(&identity, &uri("acct", "alice@other.com")),
        Err(ResolveError::NotFound)
    );
    assert_eq!(
        account_in_uri(&identity, &uri("acct", "alice@example.com.evil")),
        Err(ResolveError::NotFound)
    );
}

#[test]
fn parts_with_invalid_name_are_not_found() {
    let identity = example();
    assert_eq!(account_in_uri(&identity, &uri("acct", "..@example.com")), Err(ResolveError::NotFound));
    assert_eq!(
        account_in_uri(&identity, &uri("acct", "a\\b@example.com")),
        Err(ResolveError::NotFound)
    );
}

#[test]
fn split_handle_takes_both_sides() {
    let expected = AccountHandle { local: "alice".to_string(), host: "example.com".to_string() };
    assert_eq!(split_handle("alice@example.com"), Some(expected));
    let short = AccountHandle { local: "a".to_string(), host: "b".to_string() };
    assert_eq!(split_handle("a@b"), Some(short));
}

#[test]
fn split_handle_counts_characters() {
    let expected = AccountHandle { local: "zoë".to_string(), host: "exämple.com".to_string() };
    assert_eq!(split_handle("zoë@exämple.com"), Some(expected));
}

#[test]
fn split_handle_rejects_other_shapes() {
    assert_eq!(split_handle(""), None);
    assert_eq!(split_handle("alice"), None);
    assert_eq!(split_handle("@"), None);
    assert_eq!(split_handle("@example.com"), None);
    assert_eq!(split_handle("alice@"), None);
    assert_eq!(split_handle("a@b@c"), None);
    assert_eq!(split_handle("a@@b"), None);
}

#[test]
fn subject_uses_the_configured_domain() {
    let identity = ServerIdentity::new("https://social.example/", "social.example");
    let bob = Username::parse("bob").unwrap();
    let doc = resolve_discovery(&identity, &bob, true).unwrap();
    assert_eq!(doc.subject, "acct:bob@social.example");
    assert_eq!(doc.links.len(), 1);
    assert_eq!(doc.links[0].href, "https://social.example/users/bob");
    assert_eq!(doc.links[0].rel, "self");
    assert_eq!(doc.links[0].media_type, "application/activity+json");
}

#[test]
fn discovering_twice_gives_the_same_document() {
    let identity = example();
    let first = discovery_target(&identity, "acct:alice@example.com");
    let second = discovery_target(&identity, "acct:alice@example.com");
    assert_eq!(first, second);
    let user = first.unwrap();
    assert_eq!(resolve_discovery(&identity, &user, true), resolve_discovery(&identity, &user, true));
    assert_eq!(
        discovery_target(&identity, "acct:alice"),
        discovery_target(&identity, "acct:alice")
    );
}

#[test]
fn uri_parser_drops_tabs_and_outer_spaces() {
    let identity = example();
    let user = discovery_target(&identity, "acct:al\tice@example.com").unwrap();
    assert_eq!(user.as_str(), "alice");
    let user = discovery_target(&identity, " acct:alice@example.com ").unwrap();
    assert_eq!(user.as_str(), "alice");
}

#[test]
fn fragment_is_not_part_of_the_handle() {
    let identity = example();
    let user = discovery_target(&identity, "acct:alice@example.com#top").unwrap();
    assert_eq!(user.as_str(), "alice");
}
