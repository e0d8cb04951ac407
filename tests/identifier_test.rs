use replicate::identifier::{Identifier, InvalidIdentifierError};

#[test]
fn test_valid_with_version() {
    let identifier = Identifier::parse("owner/name:abc123").unwrap();
    assert_eq!(identifier.owner, "owner");
    assert_eq!(identifier.name, "name");
    assert_eq!(identifier.version, Some("abc123".to_string()));
    assert_eq!(identifier.to_string(), "owner:name:abc123");
}

#[test]
fn test_valid_without_version() {
    let identifier = Identifier::parse("black-forest-labs/flux-schnell").unwrap();
    assert_eq!(identifier.owner, "black-forest-labs");
    assert_eq!(identifier.name, "flux-schnell");
    assert_eq!(identifier.version, None);
    assert_eq!(identifier.to_string(), "black-forest-labs:flux-schnell");
}

#[test]
fn test_invalid() {
    assert!(matches!(Identifier::parse("invalid"), Err(InvalidIdentifierError)));
}

#[test]
fn test_empty() {
    assert!(matches!(Identifier::parse("/"), Err(InvalidIdentifierError)));
}

#[test]
fn test_blank() {
    assert!(matches!(Identifier::parse(""), Err(InvalidIdentifierError)));
}

#[test]
fn parse_owner_name_version() {
    let id = Identifier::parse("owner/name:v1").unwrap();
    assert_eq!(id.owner, "owner");
    assert_eq!(id.name, "name");
    assert_eq!(id.version.as_deref(), Some("v1"));
}

#[test]
fn parse_without_version_has_none() {
    let id = Identifier::parse("owner/name").unwrap();
    assert_eq!(id.version, None);
}

#[test]
fn parse_rejects_extra_slash() {
    assert!(Identifier::parse("a/b/c").is_err());
    assert!(Identifier::parse("a/b:c/d").is_err());
}

#[test]
fn parse_rejects_empty_parts() {
    assert!(Identifier::parse("/name").is_err());
    assert!(Identifier::parse("owner/").is_err());
    assert!(Identifier::parse("owner/:v1").is_err());
}

#[test]
fn parse_version_keeps_later_colons() {
    let id = Identifier::parse("o/n:a:b").unwrap();
    assert_eq!(id.name, "n");
    assert_eq!(id.version.as_deref(), Some("a:b"));
    let empty = Identifier::parse("o/n:").unwrap();
    assert_eq!(empty.version.as_deref(), Some(""));
}

#[test]
fn identifiers_compare_by_parts() {
    assert_eq!(Identifier::parse("o/n:v").unwrap(), Identifier::parse("o/n:v").unwrap());
    assert_ne!(Identifier::parse("o/n:v").unwrap(), Identifier::parse("o/n").unwrap());
    assert_ne!(Identifier::parse("o/n").unwrap(), Identifier::parse("o/m").unwrap());
}
