use image_security::error::{ConfigError, Error, ImageError, RejectReason};
use image_security::image::reference::Reference;
use image_security::image::Image;
use image_security::mechanism::simple::sigstore::{SigstoreConfig, SigstoreEntry, SigstoreLocation};
use image_security::mechanism::simple::verify::SigPayload;
use image_security::mechanism::simple::resources::{
    copy_bytes, find_gathered, ConfigDirState, FileWrite, GatheredResource,
};
use image_security::mechanism::simple::{
    get_signatures, judge_single_signature, KeyType, SimpleParameters,
};
use image_security::mechanism::{
    init_all_signing_schemes, Evidence, ResourceEntry, ResourceRegistry, SignScheme,
    SignSchemeEnum, StoreListing, GPG_KEY_RING, GPG_KEY_RING_KBS, SIGSTORE_CONFIG_KBS,
    SIG_STORE_CONFIG_DIR,
};
use image_security::policy::ref_match::PolicyReqMatchType;

const STORE: &str = "/var/lib/containers/sigstore/ns/app@sha256=AAAA";

fn image() -> Image {
    let mut image = Image::default_with_reference(Reference::parse("registry.io/ns/app").unwrap());
    image.set_manifest_digest("sha256:AAAA").unwrap();
    image
}

fn payload(reference: &str, digest: &str) -> Option<SigPayload> {
    Some(SigPayload {
        docker_reference: reference.to_string(),
        docker_manifest_digest: digest.to_string(),
    })
}

fn parameters() -> SimpleParameters {
    SimpleParameters {
        key_type: "GPGKeys".to_string(),
        key_path: Some("/run/image-security/simple_signing/pubkey.gpg".to_string()),
        key_data: None,
        signed_identity: None,
    }
}

fn evidence(verified: Vec<Option<SigPayload>>) -> Evidence {
    Evidence {
        key_file: Some(vec![0x99, 0x01]),
        sigstore_config: SigstoreConfig {
            entries: vec![SigstoreEntry {
                namespace_prefix: String::new(),
                base_url: "file:///var/lib/containers/sigstore".to_string(),
            }],
        },
        store: StoreListing {
            location: SigstoreLocation::Directory { path: STORE.to_string() },
            signatures: verified.iter().map(|_| vec![1u8, 2, 3]).collect(),
        },
        verified,
    }
}

#[test]
fn one_good_signature_allows_the_image() {
    let e = evidence(vec![payload("registry.io/ns/app:latest", "sha256:AAAA")]);
    assert_eq!(parameters().allows_image(&image(), &e), Ok(()));
}

#[test]
fn wrong_digest_is_reported_for_the_signature() {
    let e = evidence(vec![payload("registry.io/ns/app:latest", "sha256:BBBB")]);
    assert_eq!(
        parameters().allows_image(&image(), &e),
        Err(Error::NoAcceptableSignature(vec![RejectReason::DigestMismatch]))
    );
}

#[test]
fn empty_store_is_reported_as_no_signatures() {
    let e = evidence(vec![]);
    assert_eq!(
        parameters().allows_image(&image(), &e),
        Err(Error::NoAcceptableSignature(vec![RejectReason::NoSignaturesFound]))
    );
}

#[test]
fn every_failed_candidate_has_its_reason() {
    let e = evidence(vec![
        None,
        payload("registry.io/ns/other:latest", "sha256:AAAA"),
        payload("registry.io/ns/app:latest", "sha256:BBBB"),
        payload("not a reference", "sha256:AAAA"),
    ]);
    assert_eq!(
        parameters().allows_image(&image(), &e),
        Err(Error::NoAcceptableSignature(vec![
            RejectReason::SignatureFormat,
            RejectReason::IdentityMismatch,
            RejectReason::DigestMismatch,
            RejectReason::IdentityMismatch,
        ]))
    );
}

#[test]
fn first_good_signature_ends_the_search() {
    let e = evidence(vec![
        None,
        payload("registry.io/ns/app", "sha256:AAAA"),
        payload("registry.io/ns/app:latest", "sha256:BBBB"),
    ]);
    assert_eq!(parameters().allows_image(&image(), &e), Ok(()));
}

#[test]
fn unknown_key_type_is_refused_first() {
    let mut p = parameters();
    p.key_type = "X509".to_string();
    p.key_data = Some("a2V5".to_string());
    let e = evidence(vec![payload("registry.io/ns/app:latest", "sha256:AAAA")]);
    assert_eq!(p.allows_image(&image(), &e), Err(Error::Config(ConfigError::UnknownKeyType)));
}

#[test]
fn both_key_sources_are_refused() {
    let mut p = parameters();
    p.key_data = Some("a2V5".to_string());
    let e = evidence(vec![payload("registry.io/ns/app:latest", "sha256:AAAA")]);
    assert_eq!(p.allows_image(&image(), &e), Err(Error::Config(ConfigError::BothKeySources)));
    assert_eq!(p.key_ring(&e.key_file), Err(Error::Config(ConfigError::BothKeySources)));
}

#[test]
fn no_key_source_is_refused() {
    let mut p = parameters();
    p.key_path = None;
    let e = evidence(vec![payload("registry.io/ns/app:latest", "sha256:AAAA")]);
    assert_eq!(p.allows_image(&image(), &e), Err(Error::Config(ConfigError::NoKeySource)));
}

#[test]
fn missing_key_file_is_a_missing_resource() {
    let mut e = evidence(vec![payload("registry.io/ns/app:latest", "sha256:AAAA")]);
    e.key_file = None;
    assert_eq!(parameters().allows_image(&image(), &e), Err(Error::ResourceMissing));
}

#[test]
fn inline_key_data_is_decoded() {
    let mut p = parameters();
    p.key_path = None;
    p.key_data = Some("aGVsbG8gd29ybGQ=".to_string());
    assert_eq!(p.key_ring(&None), Ok(b"hello world".to_vec()));
    let mut e = evidence(vec![payload("registry.io/ns/app:latest", "sha256:AAAA")]);
    e.key_file = None;
    assert_eq!(p.allows_image(&image(), &e), Ok(()));
}

#[test]
fn inline_key_data_has_to_be_base64() {
    let mut p = parameters();
    p.key_path = None;
    p.key_data = Some("not base64!".to_string());
    assert_eq!(p.key_ring(&None), Err(Error::Config(ConfigError::InvalidKeyData)));
    let e = evidence(vec![payload("registry.io/ns/app:latest", "sha256:AAAA")]);
    assert_eq!(p.allows_image(&image(), &e), Err(Error::Config(ConfigError::InvalidKeyData)));
}

#[test]
fn key_file_is_the_key_ring() {
    assert_eq!(parameters().key_ring(&Some(vec![7, 8, 9])), Ok(vec![7, 8, 9]));
    assert_eq!(copy_bytes(&vec![1, 2, 3]), vec![1, 2, 3]);
}

#[test]
fn unusable_match_rule_is_a_configuration_error() {
    let mut p = parameters();
    p.signed_identity =
        Some(PolicyReqMatchType::ExactReference { docker_reference: "NOT A REFERENCE".to_string() });
    let e = evidence(vec![payload("registry.io/ns/app:latest", "sha256:AAAA")]);
    assert_eq!(p.allows_image(&image(), &e), Err(Error::Config(ConfigError::InvalidSignedIdentity)));
}

#[test]
fn missing_digest_is_fatal() {
    let image = Image::default_with_reference(Reference::parse("registry.io/ns/app").unwrap());
    let e = evidence(vec![]);
    assert_eq!(
        parameters().allows_image(&image, &e),
        Err(Error::Image(ImageError::MissingDigest))
    );
}

#[test]
fn digest_embedded_in_the_reference_is_used() {
    let digest = format!("sha256:{}", "a".repeat(64));
    let image = Image::default_with_reference(
        Reference::parse(&format!("registry.io/ns/app@{}", digest)).unwrap(),
    );
    let mut e = evidence(vec![payload(&format!("registry.io/ns/app@{}", digest), &digest)]);
    e.store.location = SigstoreLocation::Directory {
        path: format!("/var/lib/containers/sigstore/ns/app@sha256={}", "a".repeat(64)),
    };
    assert_eq!(parameters().allows_image(&image, &e), Ok(()));
}

#[test]
fn listing_of_another_place_is_refused() {
    let mut e = evidence(vec![payload("registry.io/ns/app:latest", "sha256:AAAA")]);
    e.store.location = SigstoreLocation::Directory { path: "/tmp/elsewhere".to_string() };
    assert_eq!(
        parameters().allows_image(&image(), &e),
        Err(Error::Config(ConfigError::EvidenceMismatch))
    );
}

#[test]
fn every_signature_needs_its_check() {
    let mut e = evidence(vec![payload("registry.io/ns/app:latest", "sha256:AAAA")]);
    e.store.signatures.push(vec![4, 5, 6]);
    assert_eq!(
        parameters().allows_image(&image(), &e),
        Err(Error::Config(ConfigError::EvidenceMismatch))
    );
}

#[test]
fn image_without_store_has_no_signatures() {
    let mut e = evidence(vec![]);
    e.sigstore_config = SigstoreConfig::new();
    assert_eq!(
        parameters().allows_image(&image(), &e),
        Err(Error::Config(ConfigError::NoSigstore))
    );
    assert_eq!(
        get_signatures(&image(), &e.sigstore_config, &e.store),
        Err(Error::Config(ConfigError::NoSigstore))
    );
}

#[test]
fn signatures_come_from_the_listing() {
    let mut e = evidence(vec![None, None]);
    e.store.signatures = vec![vec![1], vec![2, 2]];
    assert_eq!(
        get_signatures(&image(), &e.sigstore_config, &e.store),
        Ok(&vec![vec![1u8], vec![2u8, 2]])
    );
}

#[test]
fn single_signature_is_judged_in_three_steps() {
    let image = image();
    assert_eq!(judge_single_signature(&image, None, &None), Err(RejectReason::SignatureFormat));
    assert_eq!(
        judge_single_signature(&image, None, &payload("registry.io/ns/app:v2", "sha256:BBBB")),
        Err(RejectReason::IdentityMismatch)
    );
    assert_eq!(
        judge_single_signature(&image, None, &payload("registry.io/ns/app", "sha256:BBBB")),
        Err(RejectReason::DigestMismatch)
    );
    assert_eq!(
        judge_single_signature(&image, None, &payload("registry.io/ns/app", "sha256:AAAA")),
        Ok(())
    );
    let rule = PolicyReqMatchType::MatchRepository;
    assert_eq!(
        judge_single_signature(&image, Some(&rule), &payload("registry.io/ns/app:v2", "sha256:AAAA")),
        Ok(())
    );
}

#[test]
fn signature_for_an_image_without_digest_never_matches() {
    let image = Image::default_with_reference(Reference::parse("registry.io/ns/app").unwrap());
    assert_eq!(
        judge_single_signature(&image, None, &payload("registry.io/ns/app", "sha256:AAAA")),
        Err(RejectReason::DigestMismatch)
    );
}

#[test]
fn key_type_has_one_name() {
    assert_eq!(KeyType::Gpg.name(), "GPGKeys");
    assert_eq!(KeyType::parse("GPGKeys"), Some(KeyType::Gpg));
    assert_eq!(KeyType::parse("gpgkeys"), None);
    assert_eq!(KeyType::parse(""), None);
}

#[test]
fn runtime_directories_are_named_once_for_all_mechanisms() {
    let registry = ResourceRegistry::standard();
    let dirs = vec![
        "/run/image-security/simple_signing".to_string(),
        "/run/image-security/simple_signing/sigstore_config".to_string(),
    ];
    assert_eq!(init_all_signing_schemes(&registry), dirs);
    assert_eq!(parameters().init(&registry), dirs);
    assert_eq!(parameters().init(&registry), dirs);
    assert_eq!(parameters().prepare_runtime_dirs(&registry), dirs);
}

#[test]
fn manifest_names_resources_and_their_files() {
    let registry = ResourceRegistry::standard();
    assert_eq!(registry.sigstore_config_dir, SIG_STORE_CONFIG_DIR);
    assert_eq!(
        parameters().resource_manifest(&registry),
        vec![
            ResourceEntry {
                name: SIGSTORE_CONFIG_KBS.to_string(),
                path: "/run/image-security/simple_signing/sigstore_config/default.yaml".to_string(),
            },
            ResourceEntry { name: GPG_KEY_RING_KBS.to_string(), path: GPG_KEY_RING.to_string() },
        ]
    );
}

#[test]
fn resources_are_asked_for_when_they_are_not_there() {
    let registry = ResourceRegistry::standard();
    let p = parameters();
    let config = "Sigstore Config".to_string();
    let ring = "GPG Keyring".to_string();
    assert_eq!(
        p.resources_check(&registry, ConfigDirState::Empty, false),
        vec![config.clone(), ring.clone()]
    );
    assert_eq!(p.resources_check(&registry, ConfigDirState::Empty, true), vec![config]);
    assert_eq!(p.resources_check(&registry, ConfigDirState::Populated, false), vec![ring.clone()]);
    assert_eq!(p.resources_check(&registry, ConfigDirState::Unreadable, false), vec![ring]);
    assert_eq!(p.resources_check(&registry, ConfigDirState::Populated, true), Vec::<String>::new());
}

#[test]
fn gathered_resources_become_files() {
    let registry = ResourceRegistry::standard();
    let resources = vec![
        GatheredResource { name: "GPG Keyring".to_string(), bytes: vec![0x99, 0xff] },
        GatheredResource { name: "Unknown".to_string(), bytes: vec![1] },
        GatheredResource { name: "Sigstore Config".to_string(), bytes: b"docker: {}".to_vec() },
        GatheredResource { name: "GPG Keyring".to_string(), bytes: vec![0] },
    ];
    assert_eq!(find_gathered(&resources, "GPG Keyring"), Some(&vec![0x99u8, 0xff]));
    assert_eq!(find_gathered(&resources, "Policy"), None);
    assert_eq!(
        parameters().process_gathered_resources(&registry, &resources),
        Ok(vec![
            FileWrite {
                path: "/run/image-security/simple_signing/sigstore_config/default.yaml".to_string(),
                bytes: b"docker: {}".to_vec(),
            },
            FileWrite {
                path: "/run/image-security/simple_signing/pubkey.gpg".to_string(),
                bytes: vec![0x99, 0xff],
            },
        ])
    );
    assert_eq!(parameters().process_gathered_resources(&registry, &vec![]), Ok(vec![]));
}

#[test]
fn sigstore_configuration_has_to_be_text() {
    let registry = ResourceRegistry::standard();
    let resources =
        vec![GatheredResource { name: "Sigstore Config".to_string(), bytes: vec![0xff, 0xfe] }];
    assert_eq!(
        parameters().process_gathered_resources(&registry, &resources),
        Err(Error::Config(ConfigError::InvalidResource))
    );
}

#[test]
fn scheme_enum_dispatches_to_its_mechanism() {
    let scheme = SignSchemeEnum::SimpleSigning(parameters());
    let good = evidence(vec![payload("registry.io/ns/app:latest", "sha256:AAAA")]);
    let bad = evidence(vec![None]);
    assert_eq!(scheme.allows_image(&image(), &good), Ok(()));
    assert_eq!(scheme.inner_ref().allows_image(&image(), &good), Ok(()));
    assert_eq!(
        scheme.inner_ref().allows_image(&image(), &bad),
        Err(Error::NoAcceptableSignature(vec![RejectReason::SignatureFormat]))
    );
    assert_eq!(
        scheme.inner_ref().resource_manifest(&ResourceRegistry::standard()).len(),
        2
    );
}
