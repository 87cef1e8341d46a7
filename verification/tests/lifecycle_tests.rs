use static_stash::content_type::{ContentType, RegistryError};
use static_stash::lazy::RegistryCell;
use static_stash::registry::{AssetDecl, UrlPolicy};

fn decl(name: &str, path: &str, content_type: ContentType, content: &[u8]) -> AssetDecl {
    AssetDecl {
        name: name.to_string(),
        path: path.to_string(),
        content_type,
        content: content.to_vec(),
    }
}

#[test]
fn cell_starts_empty() {
    let cell = RegistryCell::new();
    assert!(!cell.is_initialized());
    assert!(cell.registry().is_none());
}

#[test]
fn first_initialization_constructs_registry() {
    let mut cell = RegistryCell::new();
    let decls = vec![decl("test", "/static/test.css", ContentType::Script, b"/* this is test.css */")];
    assert!(cell.initialize(decls, UrlPolicy::ContentFingerprint).is_ok());
    assert!(cell.is_initialized());
    let registry = cell.registry().unwrap();
    assert_eq!(
        registry.versioned_url_of("test").unwrap().as_str(),
        "/static/test.css?v=13915677119532516144"
    );
}

#[test]
fn later_initializations_do_not_rebuild() {
    let mut cell = RegistryCell::new();
    let first = vec![decl("test", "/static/test.css", ContentType::Script, b"/* this is test.css */")];
    assert!(cell.initialize(first, UrlPolicy::ContentFingerprint).is_ok());
    let url_before = cell.registry().unwrap().versioned_url_of("test").unwrap().clone();

    // A second attempt, even with different declarations, must leave the
    // stored registry exactly as the first construction produced it.
    let second = vec![decl("other", "/static/other.js", ContentType::Script, b"different")];
    assert!(cell.initialize(second, UrlPolicy::ContentFingerprint).is_ok());
    let registry = cell.registry().unwrap();
    assert_eq!(registry.versioned_url_of("test").unwrap().as_str(), url_before.as_str());
    assert!(registry.versioned_url_of("other").is_none());
    assert_eq!(registry.len(), 1);
}

#[test]
fn failed_initialization_leaves_cell_empty() {
    let mut cell = RegistryCell::new();
    let decls = vec![
        decl("a", "/static/app.css", ContentType::Stylesheet, b"a"),
        decl("b", "/static/app.css", ContentType::Stylesheet, b"b"),
    ];
    let result = cell.initialize(decls, UrlPolicy::ContentFingerprint);
    assert_eq!(result.unwrap_err(), RegistryError::DuplicatePath);
    assert!(!cell.is_initialized());
    assert!(cell.registry().is_none());
}
