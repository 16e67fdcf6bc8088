use image_security::error::{ConfigError, RejectReason};
use image_security::image::reference::Reference;
use image_security::mechanism::simple::verify::SigPayload;
use image_security::policy::ref_match::PolicyReqMatchType;

fn pulled(text: &str) -> Reference {
    Reference::parse(text).unwrap()
}

fn payload(reference: &str, digest: &str) -> SigPayload {
    SigPayload { docker_reference: reference.to_string(), docker_manifest_digest: digest.to_string() }
}

#[test]
fn default_rule_is_exact_match() {
    assert_eq!(PolicyReqMatchType::default_match_policy(), PolicyReqMatchType::MatchExact);
    let p = payload("registry.io/ns/app", "sha256:AAAA");
    let image_ref = pulled("registry.io/ns/app:latest");
    assert_eq!(p.validate_signed_docker_reference(&image_ref, None), Ok(()));
    assert_eq!(
        p.validate_signed_docker_reference(&image_ref, Some(&PolicyReqMatchType::MatchExact)),
        Ok(())
    );
    let other = pulled("registry.io/ns/app:v2");
    assert_eq!(
        p.validate_signed_docker_reference(&other, None),
        Err(RejectReason::IdentityMismatch)
    );
}

#[test]
fn exact_match_compares_normal_forms() {
    let rule = PolicyReqMatchType::MatchExact;
    let image_ref = pulled("busybox");
    assert!(rule.matches_docker_reference(&image_ref, "docker.io/library/busybox:latest"));
    assert!(rule.matches_docker_reference(&image_ref, "busybox:latest"));
    assert!(!rule.matches_docker_reference(&image_ref, "busybox:1.36"));
    assert!(!rule.matches_docker_reference(&image_ref, "not a reference"));
}

#[test]
fn match_repository_ignores_tag_and_digest() {
    let rule = PolicyReqMatchType::MatchRepository;
    let image_ref = pulled("registry.io/ns/app:v1");
    assert!(rule.matches_docker_reference(&image_ref, "registry.io/ns/app:v2"));
    assert!(rule.matches_docker_reference(
        &image_ref,
        &format!("registry.io/ns/app@sha256:{}", "0".repeat(64))
    ));
    assert!(!rule.matches_docker_reference(&image_ref, "registry.io/ns/other:v1"));
    assert!(!rule.matches_docker_reference(&image_ref, "evil.io/ns/app:v1"));
}

#[test]
fn exact_reference_ignores_what_was_pulled() {
    let rule =
        PolicyReqMatchType::ExactReference { docker_reference: "registry.io/ns/app:v1".to_string() };
    assert_eq!(rule.check(), Ok(()));
    let image_ref = pulled("mirror.io/copy/app:v7");
    assert!(rule.matches_docker_reference(&image_ref, "registry.io/ns/app:v1"));
    assert!(!rule.matches_docker_reference(&image_ref, "mirror.io/copy/app:v7"));
}

#[test]
fn exact_reference_that_does_not_parse_accepts_nothing() {
    let rule = PolicyReqMatchType::ExactReference { docker_reference: "NOT A REFERENCE".to_string() };
    assert_eq!(rule.check(), Err(ConfigError::InvalidSignedIdentity));
    assert!(rule.configured_reference().is_none());
    let image_ref = pulled("registry.io/ns/app:v1");
    assert!(!rule.matches_docker_reference(&image_ref, "registry.io/ns/app:v1"));
}

#[test]
fn exact_repository_compares_names() {
    let rule =
        PolicyReqMatchType::ExactRepository { docker_repository: "registry.io/ns/app".to_string() };
    let image_ref = pulled("mirror.io/copy/app:v7");
    assert!(rule.matches_docker_reference(&image_ref, "registry.io/ns/app:v1"));
    assert!(rule.matches_docker_reference(&image_ref, "registry.io/ns/app"));
    assert!(!rule.matches_docker_reference(&image_ref, "registry.io/ns/app2:v1"));
}

#[test]
fn remap_identity_replaces_the_prefix() {
    let rule = PolicyReqMatchType::RemapIdentity {
        prefix: "mirror.io/copy".to_string(),
        signed_prefix: "registry.io/ns".to_string(),
    };
    let image_ref = pulled("mirror.io/copy/app:v1");
    assert!(rule.matches_docker_reference(&image_ref, "registry.io/ns/app:v1"));
    assert!(!rule.matches_docker_reference(&image_ref, "mirror.io/copy/app:v1"));
    assert!(!rule.matches_docker_reference(&image_ref, "registry.io/ns/app:v2"));
}

#[test]
fn remap_identity_without_the_prefix_is_exact_match() {
    let rule = PolicyReqMatchType::RemapIdentity {
        prefix: "mirror.io/copy".to_string(),
        signed_prefix: "registry.io/ns".to_string(),
    };
    let image_ref = pulled("elsewhere.io/x/app:v1");
    assert!(rule.matches_docker_reference(&image_ref, "elsewhere.io/x/app:v1"));
    assert!(!rule.matches_docker_reference(&image_ref, "registry.io/ns/app:v1"));
}

#[test]
fn matches_parsed_takes_references_as_they_are() {
    let image_ref = pulled("registry.io/ns/app:v1");
    let same = Some(pulled("registry.io/ns/app:v1"));
    let rule = PolicyReqMatchType::MatchExact;
    assert!(rule.matches_parsed(&image_ref, "", &same, &None));
    assert!(!rule.matches_parsed(&image_ref, "registry.io/ns/app:v1", &None, &None));
    let fixed = PolicyReqMatchType::ExactReference { docker_reference: String::new() };
    assert!(fixed.matches_parsed(&image_ref, "", &same, &same));
    assert!(!fixed.matches_parsed(&image_ref, "", &same, &None));
    let remap = PolicyReqMatchType::RemapIdentity {
        prefix: "registry.io".to_string(),
        signed_prefix: "origin.io".to_string(),
    };
    assert!(remap.matches_parsed(&image_ref, "origin.io/ns/app:v1", &None, &None));
    assert!(!remap.matches_parsed(&image_ref, "registry.io/ns/app:v1", &same, &None));
}

#[test]
fn remap_identity_compares_letter_for_letter() {
    let rule = PolicyReqMatchType::RemapIdentity {
        prefix: "mirror.io/copy".to_string(),
        signed_prefix: "registry.io/ns".to_string(),
    };
    let image_ref = pulled("mirror.io/copy/app");
    assert!(rule.matches_docker_reference(&image_ref, "registry.io/ns/app:latest"));
    assert!(!rule.matches_docker_reference(&image_ref, "registry.io/ns/app"));
}

#[test]
fn digest_is_compared_letter_for_letter() {
    let p = payload("registry.io/ns/app", "sha256:AAAA");
    assert_eq!(p.docker_reference(), "registry.io/ns/app");
    assert_eq!(p.docker_manifest_digest(), "sha256:AAAA");
    assert_eq!(p.validate_signed_docker_manifest_digest("sha256:AAAA"), Ok(()));
    assert_eq!(
        p.validate_signed_docker_manifest_digest("sha256:aaaa"),
        Err(RejectReason::DigestMismatch)
    );
    assert_eq!(
        p.validate_signed_docker_manifest_digest("sha512:AAAA"),
        Err(RejectReason::DigestMismatch)
    );
}
