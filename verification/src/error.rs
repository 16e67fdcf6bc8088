//! The reasons for which an image is turned down.

use vstd::prelude::*;
use vstd::string::*;

verus! {

/// Why one candidate signature did not vouch for the image.
#[derive(Clone, Copy, Debug, PartialEq, Eq, Structural)]
pub enum RejectReason {
    /// The signature store held no signature for the image at all.
    NoSignaturesFound,
    /// The blob is not a document signed by a key of the key ring.
    SignatureFormat,
    /// The signed document names another image identity.
    IdentityMismatch,
    /// The signed document names another manifest digest.
    DigestMismatch,
}

/// What is wrong with a policy or a signature-store configuration.
#[derive(Clone, Copy, Debug, PartialEq, Eq, Structural)]
pub enum ConfigError {
    /// `keyType` is not the supported key-ring type.
    UnknownKeyType,
    /// Neither `keyPath` nor `keyData` is set.
    NoKeySource,
    /// Both `keyPath` and `keyData` are set.
    BothKeySources,
    /// `keyData` is not base64 text.
    InvalidKeyData,
    /// The match rule names a reference that does not parse.
    InvalidSignedIdentity,
    /// No namespace of the signature-store configuration covers the image.
    NoSigstore,
    /// The signature-store location is not a URL.
    InvalidSigstoreUrl,
    /// The signature-store URL has a scheme that no store is known for.
    UnsupportedSigstoreScheme,
    /// Two configuration fragments give one namespace different stores.
    ConflictingSigstore,
    /// The resolved scope binds no mechanism at all.
    EmptyRequirements,
    /// The evidence handed in does not line up with the mechanisms.
    EvidenceMismatch,
    /// A gathered resource is not the text it has to be.
    InvalidResource,
    /// The broker parameters hold no `::` between a name and a URI.
    BrokerPairNotFound,
    /// The broker parameters name no key broker client.
    MissingBrokerName,
    /// The broker parameters name no key broker service.
    MissingBrokerUri,
}

/// What is wrong with the image as the caller described it.
#[derive(Clone, Copy, Debug, PartialEq, Eq, Structural)]
pub enum ImageError {
    /// The reference is not an image reference.
    InvalidReference,
    /// The digest is not of the form `algorithm:hex`.
    InvalidDigest,
    /// No digest was given and the reference embeds none.
    MissingDigest,
}

/// Why a signing mechanism turned an image down.
#[derive(Clone, Debug, PartialEq, Eq)]
pub enum Error {
    /// The configuration cannot be used.
    Config(ConfigError),
    /// A required secret was never put in place.
    ResourceMissing,
    /// The image is not described well enough to be checked.
    Image(ImageError),
    /// No candidate signature was acceptable; one reason per candidate, in
    /// discovery order.
    NoAcceptableSignature(Vec<RejectReason>),
    /// The policy has no scope for the image and no default.
    ScopeResolution,
}

/// The mathematical value of an [`Error`].
pub enum ErrorView {
    Config(ConfigError),
    ResourceMissing,
    Image(ImageError),
    NoAcceptableSignature(Seq<RejectReason>),
    ScopeResolution,
}

impl View for Error {
    type V = ErrorView;

    open spec fn view(&self) -> ErrorView {
        match *self {
            Error::Config(c) => ErrorView::Config(c),
            Error::ResourceMissing => ErrorView::ResourceMissing,
            Error::Image(e) => ErrorView::Image(e),
            Error::NoAcceptableSignature(reasons) => ErrorView::NoAcceptableSignature(reasons@),
            Error::ScopeResolution => ErrorView::ScopeResolution,
        }
    }
}

impl RejectReason {
    /// The reason in words.
    pub open spec fn text(self) -> Seq<char> {
        match self {
            RejectReason::NoSignaturesFound => "no signatures found"@,
            RejectReason::SignatureFormat => "signature verification failed"@,
            RejectReason::IdentityMismatch => "signed identity does not match the image"@,
            RejectReason::DigestMismatch => "signed digest does not match the image"@,
        }
    }

    /// The reason in words.
    pub fn message(&self) -> (s: &'static str)
        ensures
            s@ == self.text(),
    {
        match self {
            RejectReason::NoSignaturesFound => "no signatures found",
            RejectReason::SignatureFormat => "signature verification failed",
            RejectReason::IdentityMismatch => "signed identity does not match the image",
            RejectReason::DigestMismatch => "signed digest does not match the image",
        }
    }
}

impl ConfigError {
    /// The fault in words.
    pub open spec fn text(self) -> Seq<char> {
        match self {
            ConfigError::UnknownKeyType => "unknown key type, only GPGKeys is supported"@,
            ConfigError::NoKeySource => "neither keyPath nor keyData specified"@,
            ConfigError::BothKeySources => "both keyPath and keyData specified"@,
            ConfigError::InvalidKeyData => "keyData is not base64"@,
            ConfigError::InvalidSignedIdentity => "signedIdentity names an invalid reference"@,
            ConfigError::NoSigstore => "no signature store is configured for the image"@,
            ConfigError::InvalidSigstoreUrl => "the signature store location is not a URL"@,
            ConfigError::UnsupportedSigstoreScheme => "unsupported signature store scheme"@,
            ConfigError::ConflictingSigstore => "conflicting signature stores for one namespace"@,
            ConfigError::EmptyRequirements => "the list of policy requirements is empty"@,
            ConfigError::EvidenceMismatch => "the evidence does not fit the requirements"@,
            ConfigError::InvalidResource => "a gathered resource is not valid text"@,
            ConfigError::BrokerPairNotFound => "aa_kbc_params: KBC/KBS pair not found"@,
            ConfigError::MissingBrokerName => "aa_kbc_params: missing KBC name"@,
            ConfigError::MissingBrokerUri => "aa_kbc_params: missing KBS URI"@,
        }
    }

    /// The fault in words.
    pub fn message(&self) -> (s: &'static str)
        ensures
            s@ == self.text(),
    {
        match self {
            ConfigError::UnknownKeyType => "unknown key type, only GPGKeys is supported",
            ConfigError::NoKeySource => "neither keyPath nor keyData specified",
            ConfigError::BothKeySources => "both keyPath and keyData specified",
            ConfigError::InvalidKeyData => "keyData is not base64",
            ConfigError::InvalidSignedIdentity => "signedIdentity names an invalid reference",
            ConfigError::NoSigstore => "no signature store is configured for the image",
            ConfigError::InvalidSigstoreUrl => "the signature store location is not a URL",
            ConfigError::UnsupportedSigstoreScheme => "unsupported signature store scheme",
            ConfigError::ConflictingSigstore => "conflicting signature stores for one namespace",
            ConfigError::EmptyRequirements => "the list of policy requirements is empty",
            ConfigError::EvidenceMismatch => "the evidence does not fit the requirements",
            ConfigError::InvalidResource => "a gathered resource is not valid text",
            ConfigError::BrokerPairNotFound => "aa_kbc_params: KBC/KBS pair not found",
            ConfigError::MissingBrokerName => "aa_kbc_params: missing KBC name",
            ConfigError::MissingBrokerUri => "aa_kbc_params: missing KBS URI",
        }
    }
}

impl ImageError {
    /// The fault in words.
    pub open spec fn text(self) -> Seq<char> {
        match self {
            ImageError::InvalidReference => "invalid image reference"@,
            ImageError::InvalidDigest => "invalid image digest"@,
            ImageError::MissingDigest => "missing image digest"@,
        }
    }

    /// The fault in words.
    pub fn message(&self) -> (s: &'static str)
        ensures
            s@ == self.text(),
    {
        match self {
            ImageError::InvalidReference => "invalid image reference",
            ImageError::InvalidDigest => "invalid image digest",
            ImageError::MissingDigest => "missing image digest",
        }
    }
}

/// The reasons in words, one after the other, with `; ` between them.
pub open spec fn reasons_text(reasons: Seq<RejectReason>) -> Seq<char>
    decreases reasons.len(),
{
    if reasons.len() == 0 {
        Seq::empty()
    } else if reasons.len() == 1 {
        reasons[0].text()
    } else {
        reasons_text(reasons.drop_last()) + "; "@ + reasons.last().text()
    }
}

impl ErrorView {
    /// The error in words.
    pub open spec fn text(self) -> Seq<char> {
        match self {
            ErrorView::Config(c) => "configuration error: "@ + c.text(),
            ErrorView::ResourceMissing => "a required resource is missing"@,
            ErrorView::Image(e) => "image error: "@ + e.text(),
            ErrorView::NoAcceptableSignature(reasons) => "no acceptable signature: "@
                + reasons_text(reasons),
            ErrorView::ScopeResolution => "no policy scope covers the image and there is no default"@,
        }
    }
}

impl Error {
    /// The error in words, with the reason of every candidate signature
    /// where no signature was acceptable.
    pub fn message(&self) -> (s: String)
        ensures
            s@ == self@.text(),
    {
        match self {
            Error::Config(c) => {
                let mut s = String::from_str("configuration error: ");
                s.append(c.message());
                s
            },
            Error::ResourceMissing => String::from_str("a required resource is missing"),
            Error::Image(e) => {
                let mut s = String::from_str("image error: ");
                s.append(e.message());
                s
            },
            Error::NoAcceptableSignature(reasons) => {
                let mut list = String::new();
                let mut i: usize = 0;
                while i < reasons.len()
                    invariant
                        i <= reasons.len(),
                        list@ == reasons_text(reasons@.take(i as int)),
                    decreases reasons.len() - i,
                {
                    assert(reasons@.take(i + 1).drop_last() =~= reasons@.take(i as int));
                    if i > 0 {
                        list.append("; ");
                    }
                    list.append(reasons[i].message());
                    assert(list@ =~= reasons_text(reasons@.take(i + 1)));
                    i += 1;
                }
                assert(reasons@.take(i as int) =~= reasons@);
                let mut s = String::from_str("no acceptable signature: ");
                s.append(list.as_str());
                s
            },
            Error::ScopeResolution => String::from_str(
                "no policy scope covers the image and there is no default",
            ),
        }
    }
}

/// The view of a result whose error is an [`Error`].
pub open spec fn outcome_view<T>(r: Result<T, Error>) -> Result<T, ErrorView> {
    match r {
        Ok(t) => Ok(t),
        Err(e) => Err(e@),
    }
}

} // verus!
