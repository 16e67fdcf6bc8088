use image_security::error::{ConfigError, Error, ImageError, RejectReason};
use image_security::image::reference::Reference;
use image_security::image::Image;
use image_security::mechanism::simple::sigstore::{SigstoreConfig, SigstoreEntry, SigstoreLocation};
use image_security::mechanism::simple::verify::SigPayload;
use image_security::mechanism::simple::SimpleParameters;
use image_security::mechanism::{Evidence, SignSchemeEnum, StoreListing};
use image_security::policy::{DenyReason, Policy, PolicyScope, ResolvedScope};
use image_security::validate::{prepare_image, security_validate};

fn scheme(key_path: &str) -> SignSchemeEnum {
    SignSchemeEnum::SimpleSigning(SimpleParameters {
        key_type: "GPGKeys".to_string(),
        key_path: Some(key_path.to_string()),
        key_data: None,
        signed_identity: None,
    })
}

fn scope(transport: &str, text: &str, key: &str) -> PolicyScope {
    PolicyScope {
        transport: transport.to_string(),
        scope: text.to_string(),
        requirements: vec![scheme(key)],
    }
}

fn image(reference: &str) -> Image {
    prepare_image(reference, "sha256:AAAA").unwrap()
}

fn evidence(reference: &str, digest: &str) -> Evidence {
    Evidence {
        key_file: Some(vec![1]),
        sigstore_config: SigstoreConfig {
            entries: vec![SigstoreEntry {
                namespace_prefix: String::new(),
                base_url: "file:///sigstore".to_string(),
            }],
        },
        store: StoreListing {
            location: SigstoreLocation::Directory { path: "/sigstore/ns/app@sha256=AAAA".to_string() },
            signatures: vec![vec![0]],
        },
        verified: vec![Some(SigPayload {
            docker_reference: reference.to_string(),
            docker_manifest_digest: digest.to_string(),
        })],
    }
}

fn layered() -> Policy {
    Policy {
        default: Some(vec![scheme("default")]),
        scopes: vec![
            scope("docker", "registry.io", "registry"),
            scope("docker", "registry.io/ns/app:v1", "tagged"),
            scope("docker", "registry.io/ns", "namespace"),
            scope("docker", "registry.io/ns/app", "repository"),
            scope("atomic", "registry.io/ns/app:v2", "other transport"),
        ],
        accept_empty: false,
    }
}

#[test]
fn most_specific_scope_wins() {
    let policy = layered();
    assert_eq!(policy.resolve_scope(&image("registry.io/ns/app:v1")), Some(ResolvedScope::Entry(1)));
    assert_eq!(policy.resolve_scope(&image("registry.io/ns/app:v2")), Some(ResolvedScope::Entry(3)));
    assert_eq!(policy.resolve_scope(&image("registry.io/ns/other")), Some(ResolvedScope::Entry(2)));
    assert_eq!(policy.resolve_scope(&image("registry.io/x/y")), Some(ResolvedScope::Entry(0)));
    assert_eq!(policy.resolve_scope(&image("other.io/x")), Some(ResolvedScope::Default));
}

#[test]
fn namespace_ends_at_a_slash() {
    let policy = layered();
    assert_eq!(policy.resolve_scope(&image("registry.io/nsx/app")), Some(ResolvedScope::Entry(0)));
    assert_eq!(policy.resolve_scope(&image("registry.iox/ns/app")), Some(ResolvedScope::Default));
}

#[test]
fn schemes_of_the_resolved_scope_are_returned() {
    let policy = layered();
    assert_eq!(
        policy.signature_schemes(&image("registry.io/ns/app:v1")),
        Ok(&vec![scheme("tagged")])
    );
    assert_eq!(policy.signature_schemes(&image("other.io/x")), Ok(&vec![scheme("default")]));
}

#[test]
fn no_scope_and_no_default_is_an_error() {
    let mut policy = layered();
    policy.default = None;
    let image = image("other.io/x");
    assert_eq!(policy.resolve_scope(&image), None);
    assert_eq!(policy.signature_schemes(&image), Err(Error::ScopeResolution));
    assert_eq!(
        policy.is_image_allowed(&image, &vec![]),
        Err(DenyReason { scope: None, mechanism: None, cause: Error::ScopeResolution })
    );
}

#[test]
fn image_is_allowed_when_its_mechanism_accepts() {
    let policy = layered();
    let image = image("registry.io/ns/app");
    assert_eq!(
        policy.is_image_allowed(&image, &vec![evidence("registry.io/ns/app:latest", "sha256:AAAA")]),
        Ok(())
    );
}

#[test]
fn every_mechanism_has_to_accept() {
    let mut policy = layered();
    policy.scopes[3].requirements.push(scheme("second"));
    let image = image("registry.io/ns/app");
    let good = evidence("registry.io/ns/app:latest", "sha256:AAAA");
    let bad = evidence("registry.io/ns/app:latest", "sha256:BBBB");
    assert_eq!(policy.is_image_allowed(&image, &vec![good.clone(), good.clone()]), Ok(()));
    assert_eq!(
        policy.is_image_allowed(&image, &vec![good.clone(), bad.clone()]),
        Err(DenyReason {
            scope: Some(ResolvedScope::Entry(3)),
            mechanism: Some(1),
            cause: Error::NoAcceptableSignature(vec![RejectReason::DigestMismatch]),
        })
    );
    assert_eq!(
        policy.is_image_allowed(&image, &vec![bad.clone(), bad]),
        Err(DenyReason {
            scope: Some(ResolvedScope::Entry(3)),
            mechanism: Some(0),
            cause: Error::NoAcceptableSignature(vec![RejectReason::DigestMismatch]),
        })
    );
}

#[test]
fn evidence_has_to_line_up_with_the_mechanisms() {
    let policy = layered();
    let image = image("registry.io/ns/app");
    assert_eq!(
        policy.is_image_allowed(&image, &vec![]),
        Err(DenyReason {
            scope: Some(ResolvedScope::Entry(3)),
            mechanism: None,
            cause: Error::Config(ConfigError::EvidenceMismatch),
        })
    );
}

#[test]
fn empty_requirement_list_goes_by_the_policy() {
    let mut policy = Policy { default: Some(vec![]), scopes: vec![], accept_empty: false };
    let image = image("registry.io/ns/app");
    assert_eq!(
        policy.is_image_allowed(&image, &vec![]),
        Err(DenyReason {
            scope: Some(ResolvedScope::Default),
            mechanism: None,
            cause: Error::Config(ConfigError::EmptyRequirements),
        })
    );
    policy.accept_empty = true;
    assert_eq!(policy.is_image_allowed(&image, &vec![]), Ok(()));
}

#[test]
fn end_to_end_good_signature_is_allowed() {
    let policy = Policy { default: Some(vec![scheme("ring")]), scopes: vec![], accept_empty: false };
    let e = evidence("registry.io/ns/app:latest", "sha256:AAAA");
    assert_eq!(security_validate("registry.io/ns/app", "sha256:AAAA", &policy, &vec![e]), Ok(()));
}

#[test]
fn end_to_end_wrong_digest_is_denied() {
    let policy = Policy { default: Some(vec![scheme("ring")]), scopes: vec![], accept_empty: false };
    let e = evidence("registry.io/ns/app:latest", "sha256:BBBB");
    assert_eq!(
        security_validate("registry.io/ns/app", "sha256:AAAA", &policy, &vec![e]),
        Err(DenyReason {
            scope: Some(ResolvedScope::Default),
            mechanism: Some(0),
            cause: Error::NoAcceptableSignature(vec![RejectReason::DigestMismatch]),
        })
    );
}

#[test]
fn end_to_end_no_signatures_is_denied() {
    let policy = Policy { default: Some(vec![scheme("ring")]), scopes: vec![], accept_empty: false };
    let mut e = evidence("registry.io/ns/app:latest", "sha256:AAAA");
    e.store.signatures.clear();
    e.verified.clear();
    assert_eq!(
        security_validate("registry.io/ns/app", "sha256:AAAA", &policy, &vec![e]),
        Err(DenyReason {
            scope: Some(ResolvedScope::Default),
            mechanism: Some(0),
            cause: Error::NoAcceptableSignature(vec![RejectReason::NoSignaturesFound]),
        })
    );
}

#[test]
fn image_has_to_be_described_well() {
    let policy = layered();
    assert_eq!(
        security_validate("NOT A REFERENCE", "sha256:AAAA", &policy, &vec![]),
        Err(DenyReason {
            scope: None,
            mechanism: None,
            cause: Error::Image(ImageError::InvalidReference),
        })
    );
    assert_eq!(
        security_validate("registry.io/ns/app", "AAAA", &policy, &vec![]),
        Err(DenyReason { scope: None, mechanism: None, cause: Error::Image(ImageError::InvalidDigest) })
    );
    assert_eq!(prepare_image("", "sha256:AAAA"), Err(ImageError::InvalidReference));
    let image = prepare_image("registry.io/ns/app", "sha256:AAAA").unwrap();
    assert_eq!(image.reference, Reference::parse("registry.io/ns/app:latest").unwrap());
}
