use image_security::error::ImageError;
use image_security::image::digest::Digest;
use image_security::image::reference::Reference;
use image_security::image::Image;

#[test]
fn parse_expands_default_tag() {
    let r = Reference::parse("registry.io/ns/app").unwrap();
    assert_eq!(r.registry(), "registry.io");
    assert_eq!(r.repository(), "ns/app");
    assert_eq!(r.tag(), Some("latest"));
    assert_eq!(r.digest(), None);
    assert_eq!(r.name(), "registry.io/ns/app");
    assert_eq!(r.tagged(), "registry.io/ns/app:latest");
    assert_eq!(r.whole(), "registry.io/ns/app:latest");
}

#[test]
fn parse_expands_default_registry() {
    let r = Reference::parse("busybox").unwrap();
    assert_eq!(r.registry(), "docker.io");
    assert_eq!(r.repository(), "library/busybox");
    assert_eq!(r.whole(), "docker.io/library/busybox:latest");
}

#[test]
fn parse_keeps_tag_and_digest() {
    let digest = format!("sha256:{}", "f".repeat(64));
    let text = format!("test:5000/repo:tag@{}", digest);
    let r = Reference::parse(&text).unwrap();
    assert_eq!(r.registry(), "test:5000");
    assert_eq!(r.repository(), "repo");
    assert_eq!(r.tag(), Some("tag"));
    assert_eq!(r.digest(), Some(digest.as_str()));
    assert_eq!(r.tagged(), "test:5000/repo:tag");
    assert_eq!(r.whole(), text);
}

#[test]
fn parse_refuses_what_is_no_reference() {
    assert_eq!(Reference::parse(""), Err(ImageError::InvalidReference));
    assert_eq!(Reference::parse("UPPER/Case:tag"), Err(ImageError::InvalidReference));
    assert_eq!(Reference::parse("a b"), Err(ImageError::InvalidReference));
    assert!(Reference::parse_opt("").is_none());
    assert!(Reference::parse_opt("registry.io/ns/app").is_some());
}

#[test]
fn whole_of_a_reference_without_registry() {
    let r = Reference {
        registry: String::new(),
        repository: "repo".to_string(),
        tag: None,
        digest: Some("sha256:00".to_string()),
    };
    assert_eq!(r.name(), "repo");
    assert_eq!(r.tagged(), "repo");
    assert_eq!(r.whole(), "repo@sha256:00");
}

#[test]
fn digest_splits_at_first_colon() {
    let d = Digest::parse("sha256:AAAA").unwrap();
    assert_eq!(d.algorithm(), "sha256");
    assert_eq!(d.value(), "AAAA");
    assert_eq!(d.render(), "sha256:AAAA");
    assert_eq!(d.duplicate(), d);
}

#[test]
fn digest_refuses_malformed_text() {
    assert_eq!(Digest::parse(""), Err(ImageError::InvalidDigest));
    assert_eq!(Digest::parse("sha256"), Err(ImageError::InvalidDigest));
    assert_eq!(Digest::parse(":abcd"), Err(ImageError::InvalidDigest));
    assert_eq!(Digest::parse("sha256:"), Err(ImageError::InvalidDigest));
    assert_eq!(Digest::parse("sha256:xyz"), Err(ImageError::InvalidDigest));
    assert_eq!(Digest::parse("sha256:ab:cd"), Err(ImageError::InvalidDigest));
}

#[test]
fn image_digest_set_explicitly_wins() {
    let text = format!("registry.io/ns/app@sha256:{}", "a".repeat(64));
    let mut image = Image::default_with_reference(Reference::parse(&text).unwrap());
    assert_eq!(image.manifest_digest, None);
    assert_eq!(image.resolved_digest().unwrap().render(), format!("sha256:{}", "a".repeat(64)));
    image.set_manifest_digest("sha256:BBBB").unwrap();
    assert_eq!(image.resolved_digest().unwrap().render(), "sha256:BBBB");
}

#[test]
fn image_without_digest_has_none() {
    let mut image = Image::default_with_reference(Reference::parse("registry.io/ns/app").unwrap());
    assert_eq!(image.resolved_digest(), Err(ImageError::MissingDigest));
    let before = image.clone();
    assert_eq!(image.set_manifest_digest("nonsense"), Err(ImageError::InvalidDigest));
    assert_eq!(image, before);
    assert_eq!(image.transport_name(), "docker");
}
