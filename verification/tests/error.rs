use identity_resolver::error::ResolveError;

#[test]
fn not_found_is_404() {
    assert_eq!(ResolveError::NotFound.status_code(), 404);
}

#[test]
fn internal_is_500() {
    assert_eq!(ResolveError::Internal.status_code(), 500);
}
