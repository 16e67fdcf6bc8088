use image_security::error::{ConfigError, Error, ImageError, RejectReason};

#[test]
fn reject_reasons_have_words() {
    assert_eq!(RejectReason::NoSignaturesFound.message(), "no signatures found");
    assert_eq!(RejectReason::SignatureFormat.message(), "signature verification failed");
    assert_eq!(RejectReason::IdentityMismatch.message(), "signed identity does not match the image");
    assert_eq!(RejectReason::DigestMismatch.message(), "signed digest does not match the image");
}

#[test]
fn errors_have_words() {
    assert_eq!(
        Error::Config(ConfigError::BothKeySources).message(),
        "configuration error: both keyPath and keyData specified"
    );
    assert_eq!(
        Error::Config(ConfigError::MissingBrokerUri).message(),
        "configuration error: aa_kbc_params: missing KBS URI"
    );
    assert_eq!(Error::ResourceMissing.message(), "a required resource is missing");
    assert_eq!(Error::Image(ImageError::MissingDigest).message(), "image error: missing image digest");
    assert_eq!(
        Error::ScopeResolution.message(),
        "no policy scope covers the image and there is no default"
    );
}

#[test]
fn every_candidate_is_named_in_the_message() {
    assert_eq!(
        Error::NoAcceptableSignature(vec![RejectReason::NoSignaturesFound]).message(),
        "no acceptable signature: no signatures found"
    );
    assert_eq!(
        Error::NoAcceptableSignature(vec![
            RejectReason::SignatureFormat,
            RejectReason::DigestMismatch,
            RejectReason::IdentityMismatch,
        ])
        .message(),
        "no acceptable signature: signature verification failed; signed digest does not match the image; signed identity does not match the image"
    );
    assert_eq!(Error::NoAcceptableSignature(vec![]).message(), "no acceptable signature: ");
}
