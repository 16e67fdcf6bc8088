//! The simple-signing mechanism: detached signatures over a small signed
//! document that names an image and its manifest digest.
//!
//! An image is allowed as soon as one signature from the store is signed by
//! a key of the key ring, claims an identity that the match rule accepts and
//! claims the digest of the pulled manifest. Where no signature does, every
//! candidate's reason is reported.

pub mod resources;
pub mod sigstore;
pub mod verify;

use crate::error::{ConfigError, Error, ErrorView, RejectReason};
use crate::image::{Image, ImageView};
use crate::mechanism::simple::sigstore::{
    store_location,
    LocationView,
    SigstoreConfig,
    SigstoreEntryView,
};
use crate::mechanism::simple::resources::copy_bytes;
use crate::mechanism::simple::verify::{judgement, payload_view, rule_view, SigPayload};
use crate::mechanism::{
    blobs_view,
    manifest_view,
    opt_bytes_view,
    strings_view,
    Evidence,
    EvidenceView,
    ResourceEntry,
    ResourceEntryView,
    ResourceRegistry,
    ResourceRegistryView,
    SignScheme,
    StoreListing,
};
use crate::policy::ref_match::{rule_or_default, MatchRule, PolicyReqMatchType};
use crate::text::{opt_view, str_eq};
use vstd::prelude::*;
use vstd::string::*;

verus! {

/// The kinds of key that signatures can be checked with.
#[derive(Clone, Copy, Debug, PartialEq, Eq, Structural)]
pub enum KeyType {
    /// A ring of OpenPGP public keys.
    Gpg,
}

/// The name of the key-ring type in a policy.
pub open spec fn gpg_keys() -> Seq<char> {
    "GPGKeys"@
}

impl KeyType {
    /// The name of the key type in a policy.
    pub fn name(&self) -> (s: &'static str)
        ensures
            s@ == gpg_keys(),
    {
        match self {
            KeyType::Gpg => "GPGKeys",
        }
    }

    /// The key type that a policy names.
    pub fn parse(name: &str) -> (key_type: Option<KeyType>)
        ensures
            key_type == (if name@ == gpg_keys() {
                Some(KeyType::Gpg)
            } else {
                None
            }),
    {
        if str_eq(name, "GPGKeys") {
            Some(KeyType::Gpg)
        } else {
            None
        }
    }
}

/// The configuration of the simple-signing mechanism for one policy scope.
#[derive(Clone, Debug, PartialEq, Eq)]
pub struct SimpleParameters {
    /// The kind of public key to verify the signatures with.
    pub key_type: String,
    /// Path of a file that holds the trusted keys. Exactly one of `key_path`
    /// and `key_data` is set.
    pub key_path: Option<String>,
    /// The trusted keys, base64-encoded. Exactly one of `key_path` and
    /// `key_data` is set.
    pub key_data: Option<String>,
    /// The identity that a signature has to claim; exact match where absent.
    pub signed_identity: Option<PolicyReqMatchType>,
}

/// The mathematical value of a [`SimpleParameters`].
pub struct SimpleParametersView {
    pub key_type: Seq<char>,
    pub key_path: Option<Seq<char>>,
    pub key_data: Option<Seq<char>>,
    pub signed_identity: Option<MatchRule>,
}

impl View for SimpleParameters {
    type V = SimpleParametersView;

    open spec fn view(&self) -> SimpleParametersView {
        SimpleParametersView {
            key_type: self.key_type@,
            key_path: opt_view(self.key_path),
            key_data: opt_view(self.key_data),
            signed_identity: match self.signed_identity {
                Some(rule) => Some(rule@),
                None => None,
            },
        }
    }
}

/// Declares the error of the `base64` crate's decoder, so that it can be
/// carried out of the call.
#[verifier::external_type_specification]
#[verifier::external_body]
pub struct ExBase64DecodeError(base64::DecodeError);

/// The bytes that the `base64` crate decodes `text` to under the standard
/// alphabet, or `None` where it refuses the text.
pub uninterp spec fn base64_decoded(text: Seq<char>) -> Option<Seq<u8>>;

/// Calls `base64::decode`. The contract only names the decoder's result: it
/// says nothing of which texts decode, nor to what.
#[verifier::external_body]
fn decode_base64(text: &str) -> (r: Result<Vec<u8>, base64::DecodeError>)
    ensures
        match r {
            Ok(bytes) => base64_decoded(text@) == Some(bytes@),
            Err(_) => base64_decoded(text@) is None,
        },
{
    base64::decode(text)
}

/// The signature blobs to judge an image by: those of the listing, provided
/// the listing was taken where the signatures of the image are published.
/// An image without a digest has no signatures to look for, and neither has
/// one that no store is configured for.
pub open spec fn signatures_of(
    image: ImageView,
    config: Seq<SigstoreEntryView>,
    location: LocationView,
    signatures: Seq<Seq<u8>>,
) -> Result<Seq<Seq<u8>>, ErrorView> {
    match image.digest() {
        Err(e) => Err(ErrorView::Image(e)),
        Ok(digest) => match store_location(config, image.reference, digest) {
            Err(e) => Err(ErrorView::Config(e)),
            Ok(expected) => if expected == location {
                Ok(signatures)
            } else {
                Err(ErrorView::Config(ConfigError::EvidenceMismatch))
            },
        },
    }
}

/// The directories that the mechanism keeps its resources in.
pub open spec fn simple_runtime_dirs(registry: ResourceRegistryView) -> Seq<Seq<char>> {
    seq![registry.config_dir, registry.sigstore_config_dir]
}

/// The resources that the mechanism needs, each with the file it belongs in.
pub open spec fn simple_manifest(registry: ResourceRegistryView) -> Seq<ResourceEntryView> {
    seq![
        ResourceEntryView {
            name: registry.sigstore_config_name,
            path: registry.sigstore_config_dir + "/default.yaml"@,
        },
        ResourceEntryView { name: registry.key_ring_name, path: registry.key_ring_path },
    ]
}

impl SimpleParametersView {
    /// The key ring to verify signatures with. The key type is looked at
    /// first, then the source of the keys: inline data is decoded, a path
    /// stands for the content of its file, `key_file`.
    pub open spec fn key_ring(self, key_file: Option<Seq<u8>>) -> Result<Seq<u8>, ErrorView> {
        if self.key_type != gpg_keys() {
            Err(ErrorView::Config(ConfigError::UnknownKeyType))
        } else {
            match (self.key_path, self.key_data) {
                (None, None) => Err(ErrorView::Config(ConfigError::NoKeySource)),
                (Some(_), Some(_)) => Err(ErrorView::Config(ConfigError::BothKeySources)),
                (None, Some(data)) => match base64_decoded(data) {
                    Some(bytes) => Ok(bytes),
                    None => Err(ErrorView::Config(ConfigError::InvalidKeyData)),
                },
                (Some(_), None) => match key_file {
                    Some(bytes) => Ok(bytes),
                    None => Err(ErrorView::ResourceMissing),
                },
            }
        }
    }

    /// The verdict on candidate `i` of the evidence.
    pub open spec fn judgement_at(self, image: ImageView, evidence: EvidenceView, i: int) -> Result<
        (),
        RejectReason,
    > {
        judgement(image.reference, image.digest_text(), self.signed_identity, evidence.verified[i])
    }

    /// Some candidate of the evidence is acceptable.
    pub open spec fn some_accepted(self, image: ImageView, evidence: EvidenceView) -> bool {
        exists|i: int|
            0 <= i < evidence.verified.len() && (#[trigger] self.judgement_at(image, evidence, i))
                is Ok
    }

    /// Why no candidate was acceptable: one reason per candidate, in discovery
    /// order, or the single reason that there was no candidate.
    pub open spec fn reject_reasons(self, image: ImageView, evidence: EvidenceView) -> Seq<
        RejectReason,
    > {
        if evidence.verified.len() == 0 {
            seq![RejectReason::NoSignaturesFound]
        } else {
            Seq::new(
                evidence.verified.len(),
                |i: int| self.judgement_at(image, evidence, i)->Err_0,
            )
        }
    }

    /// The mechanism's verdict on an image, given the evidence. Whatever is
    /// wrong with the configuration, the key ring, the image or the listing
    /// is reported before any signature is looked at. After that the image
    /// is allowed exactly when some candidate is acceptable.
    pub open spec fn verdict(self, image: ImageView, evidence: EvidenceView) -> Result<
        (),
        ErrorView,
    > {
        match self.key_ring(evidence.key_file) {
            Err(e) => Err(e),
            Ok(_) => if !rule_or_default(self.signed_identity).usable() {
                Err(ErrorView::Config(ConfigError::InvalidSignedIdentity))
            } else {
                match signatures_of(
                    image,
                    evidence.sigstore_config,
                    evidence.location,
                    evidence.signatures,
                ) {
                    Err(e) => Err(e),
                    Ok(signatures) => if signatures.len() != evidence.verified.len() {
                        Err(ErrorView::Config(ConfigError::EvidenceMismatch))
                    } else if self.some_accepted(image, evidence) {
                        Ok(())
                    } else {
                        Err(ErrorView::NoAcceptableSignature(self.reject_reasons(image, evidence)))
                    },
                }
            },
        }
    }
}

/// Candidate `i` of the evidence vouches for the image: its cryptographic
/// check passed, the identity it claims is acceptable under the rule of the
/// configuration, and the digest it claims is, letter for letter, that of
/// the image.
pub open spec fn vouches(
    parameters: SimpleParametersView,
    image: ImageView,
    evidence: EvidenceView,
    i: int,
) -> bool {
    &&& 0 <= i < evidence.verified.len()
    &&& evidence.verified[i] matches Some(payload)
    &&& payload.identity_ok(image.reference, parameters.signed_identity)
    &&& image.digest_text() == Some(payload.docker_manifest_digest)
}

/// The evidence is in order: the key ring is there, the match rule can be
/// applied, the listing was taken where the signatures of the image are
/// published, and each of its signatures went through the cryptographic
/// check.
pub open spec fn evidence_in_order(
    parameters: SimpleParametersView,
    image: ImageView,
    evidence: EvidenceView,
) -> bool {
    &&& parameters.key_ring(evidence.key_file) is Ok
    &&& rule_or_default(parameters.signed_identity).usable()
    &&& signatures_of(
        image,
        evidence.sigstore_config,
        evidence.location,
        evidence.signatures,
    ) matches Ok(signatures)
    &&& signatures.len() == evidence.verified.len()
}

/// An image is never allowed without a signature that vouches for it.
pub proof fn lemma_accept_needs_signature(
    parameters: SimpleParametersView,
    image: ImageView,
    evidence: EvidenceView,
)
    requires
        parameters.verdict(image, evidence) is Ok,
    ensures
        evidence_in_order(parameters, image, evidence),
        exists|i: int| vouches(parameters, image, evidence, i),
{
    let i = choose|i: int|
        0 <= i < evidence.verified.len() && (#[trigger] parameters.judgement_at(image, evidence, i))
            is Ok;
    assert(vouches(parameters, image, evidence, i));
}

/// With the evidence in order, an image is allowed exactly when some
/// signature of the store vouches for it.
pub proof fn lemma_accepts_iff_some_signature(
    parameters: SimpleParametersView,
    image: ImageView,
    evidence: EvidenceView,
)
    requires
        evidence_in_order(parameters, image, evidence),
    ensures
        parameters.verdict(image, evidence) is Ok <==> exists|i: int|
            vouches(parameters, image, evidence, i),
{
    if parameters.verdict(image, evidence) is Ok {
        lemma_accept_needs_signature(parameters, image, evidence);
    }
    if exists|i: int| vouches(parameters, image, evidence, i) {
        let i = choose|i: int| vouches(parameters, image, evidence, i);
        assert(parameters.judgement_at(image, evidence, i) is Ok);
    }
}

/// Without signatures in the store an image is turned down for that reason,
/// and where there are signatures, each of them has its reason in the
/// report.
pub proof fn lemma_reasons_cover_candidates(
    parameters: SimpleParametersView,
    image: ImageView,
    evidence: EvidenceView,
)
    requires
        evidence_in_order(parameters, image, evidence),
        !(exists|i: int| vouches(parameters, image, evidence, i)),
    ensures
        parameters.verdict(image, evidence) == Err::<(), ErrorView>(
            ErrorView::NoAcceptableSignature(parameters.reject_reasons(image, evidence)),
        ),
        evidence.verified.len() == 0 ==> parameters.reject_reasons(image, evidence)
            == seq![RejectReason::NoSignaturesFound],
        evidence.verified.len() > 0 ==> parameters.reject_reasons(image, evidence).len()
            == evidence.verified.len(),
{
    lemma_accepts_iff_some_signature(parameters, image, evidence);
}

/// A key ring that cannot be had denies the image, whatever the store
/// holds: the error is the one that the key ring failed with, a missing
/// resource or a fault of the configuration.
pub proof fn lemma_missing_key_ring_denies(
    parameters: SimpleParametersView,
    image: ImageView,
    evidence: EvidenceView,
)
    requires
        parameters.key_ring(evidence.key_file) is Err,
    ensures
        parameters.verdict(image, evidence) == Err::<(), ErrorView>(
            parameters.key_ring(evidence.key_file)->Err_0,
        ),
        parameters.verdict(image, evidence)->Err_0 is ResourceMissing || parameters.verdict(
            image,
            evidence,
        )->Err_0 is Config,
        parameters.key_type == gpg_keys() && parameters.key_path is Some && parameters.key_data
            is None ==> parameters.verdict(image, evidence)->Err_0 is ResourceMissing,
{
}

/// A configuration with both a key path and key data denies the image with
/// a fault of the configuration, whatever the evidence.
pub proof fn lemma_both_key_sources_denies(
    parameters: SimpleParametersView,
    image: ImageView,
    evidence: EvidenceView,
)
    requires
        parameters.key_path is Some,
        parameters.key_data is Some,
    ensures
        parameters.verdict(image, evidence) == Err::<(), ErrorView>(
            ErrorView::Config(
                if parameters.key_type == gpg_keys() {
                    ConfigError::BothKeySources
                } else {
                    ConfigError::UnknownKeyType
                },
            ),
        ),
{
}

/// The directories that the mechanism keeps its resources in.
pub fn prepare_dirs(registry: &ResourceRegistry) -> (dirs: Vec<String>)
    ensures
        strings_view(dirs) == simple_runtime_dirs(registry@),
{
    let mut dirs: Vec<String> = Vec::new();
    dirs.push(registry.config_dir.clone());
    dirs.push(registry.sigstore_config_dir.clone());
    assert(strings_view(dirs) =~= simple_runtime_dirs(registry@));
    dirs
}

/// Judges one candidate signature: it has to be signed by a key of the key
/// ring, to claim an identity that `signed_identity` accepts, and to claim
/// the digest of the image, in this order. `verified` is the payload of the
/// signature where the cryptographic check passed, `None` where it failed.
pub fn judge_single_signature(
    image: &Image,
    signed_identity: Option<&PolicyReqMatchType>,
    verified: &Option<SigPayload>,
) -> (r: Result<(), RejectReason>)
    ensures
        r == judgement(
            image@.reference,
            image@.digest_text(),
            rule_view(signed_identity),
            payload_view(*verified),
        ),
{
    let payload = match verified {
        Some(p) => p,
        None => {
            return Err(RejectReason::SignatureFormat);
        },
    };
    match payload.validate_signed_docker_reference(&image.reference, signed_identity) {
        Ok(_) => {},
        Err(e) => {
            return Err(e);
        },
    }
    match image.resolved_digest() {
        Ok(digest) => {
            let text = digest.render();
            match payload.validate_signed_docker_manifest_digest(text.as_str()) {
                Ok(_) => Ok(()),
                Err(e) => Err(e),
            }
        },
        Err(_) => Err(RejectReason::DigestMismatch),
    }
}

/// The signature blobs to judge an image by. The place where the signatures
/// of the image are published follows from the image and from the
/// configuration of the store; the listing has to be one of that place.
pub fn get_signatures<'a>(image: &Image, config: &SigstoreConfig, store: &'a StoreListing) -> (r:
    Result<&'a Vec<Vec<u8>>, Error>)
    ensures
        match r {
            Ok(signatures) => signatures_of(
                image@,
                config@,
                store.location@,
                blobs_view(store.signatures),
            ) == Ok::<Seq<Seq<u8>>, ErrorView>(blobs_view(*signatures)) && *signatures
                == store.signatures,
            Err(e) => signatures_of(image@, config@, store.location@, blobs_view(store.signatures))
                == Err::<Seq<Seq<u8>>, ErrorView>(e@),
        },
{
    let digest = match image.resolved_digest() {
        Ok(d) => d,
        Err(e) => {
            return Err(Error::Image(e));
        },
    };
    let expected = match config.locate(&image.reference, &digest) {
        Ok(l) => l,
        Err(e) => {
            return Err(Error::Config(e));
        },
    };
    if expected.same_as(&store.location) {
        Ok(&store.signatures)
    } else {
        Err(Error::Config(ConfigError::EvidenceMismatch))
    }
}

impl SimpleParameters {
    /// The key ring to verify signatures with: the inline key data, decoded,
    /// or the content of the key file.
    pub fn key_ring(&self, key_file: &Option<Vec<u8>>) -> (r: Result<Vec<u8>, Error>)
        ensures
            match r {
                Ok(bytes) => self@.key_ring(opt_bytes_view(*key_file)) == Ok::<Seq<u8>, ErrorView>(
                    bytes@,
                ),
                Err(e) => self@.key_ring(opt_bytes_view(*key_file)) == Err::<Seq<u8>, ErrorView>(
                    e@,
                ),
            },
    {
        if !str_eq(self.key_type.as_str(), KeyType::Gpg.name()) {
            return Err(Error::Config(ConfigError::UnknownKeyType));
        }
        match (&self.key_path, &self.key_data) {
            (None, None) => Err(Error::Config(ConfigError::NoKeySource)),
            (Some(_), Some(_)) => Err(Error::Config(ConfigError::BothKeySources)),
            (None, Some(data)) => match decode_base64(data.as_str()) {
                Ok(bytes) => Ok(bytes),
                Err(_) => Err(Error::Config(ConfigError::InvalidKeyData)),
            },
            (Some(_), None) => match key_file {
                Some(bytes) => Ok(copy_bytes(bytes)),
                None => Err(Error::ResourceMissing),
            },
        }
    }
}

impl SignScheme for SimpleParameters {
    open spec fn runtime_dirs(&self, registry: ResourceRegistryView) -> Seq<Seq<char>> {
        simple_runtime_dirs(registry)
    }

    open spec fn manifest(&self, registry: ResourceRegistryView) -> Seq<ResourceEntryView> {
        simple_manifest(registry)
    }

    open spec fn verdict(&self, image: ImageView, evidence: EvidenceView) -> Result<(), ErrorView> {
        self@.verdict(image, evidence)
    }

    fn init(&self, registry: &ResourceRegistry) -> (dirs: Vec<String>) {
        prepare_dirs(registry)
    }

    fn resource_manifest(&self, registry: &ResourceRegistry) -> (manifest: Vec<ResourceEntry>) {
        let mut config_path = registry.sigstore_config_dir.clone();
        config_path.append("/default.yaml");
        let mut manifest: Vec<ResourceEntry> = Vec::new();
        manifest.push(
            ResourceEntry { name: registry.sigstore_config_name.clone(), path: config_path },
        );
        manifest.push(
            ResourceEntry {
                name: registry.key_ring_name.clone(),
                path: registry.key_ring_path.clone(),
            },
        );
        assert(manifest_view(manifest) =~= simple_manifest(registry@));
        manifest
    }

    fn allows_image(&self, image: &Image, evidence: &Evidence) -> (r: Result<(), Error>) {
        match self.key_ring(&evidence.key_file) {
            Ok(_) => {},
            Err(e) => {
                return Err(e);
            },
        }
        let usable = match &self.signed_identity {
            Some(rule) => rule.check(),
            None => Ok(()),
        };
        if usable.is_err() {
            return Err(Error::Config(ConfigError::InvalidSignedIdentity));
        }
        let signatures = match get_signatures(image, &evidence.sigstore_config, &evidence.store) {
            Ok(s) => s,
            Err(e) => {
                return Err(e);
            },
        };
        if signatures.len() != evidence.verified.len() {
            return Err(Error::Config(ConfigError::EvidenceMismatch));
        }
        let rule: Option<&PolicyReqMatchType> = match &self.signed_identity {
            Some(rule) => Some(rule),
            None => None,
        };
        let mut reject_reasons: Vec<RejectReason> = Vec::new();
        let mut i: usize = 0;
        while i < evidence.verified.len()
            invariant
                i <= evidence.verified.len(),
                reject_reasons.len() == i,
                rule_view(rule) == self@.signed_identity,
                self@.key_ring(evidence@.key_file) is Ok,
                rule_or_default(self@.signed_identity).usable(),
                signatures_of(
                    image@,
                    evidence@.sigstore_config,
                    evidence@.location,
                    evidence@.signatures,
                ) matches Ok(s) && s.len() == evidence@.verified.len(),
                forall|j: int|
                    0 <= j < i ==> Err::<(), RejectReason>(#[trigger] reject_reasons@[j])
                        == self@.judgement_at(image@, evidence@, j),
            decreases evidence.verified.len() - i,
        {
            assert(evidence@.verified[i as int] == payload_view(evidence.verified@[i as int]));
            match judge_single_signature(image, rule, &evidence.verified[i]) {
                Ok(_) => {
                    assert(self@.judgement_at(image@, evidence@, i as int) is Ok);
                    return Ok(());
                },
                Err(e) => {
                    reject_reasons.push(e);
                },
            }
            i += 1;
        }
        if reject_reasons.len() == 0 {
            reject_reasons.push(RejectReason::NoSignaturesFound);
        }
        assert(!self@.some_accepted(image@, evidence@)) by {
            assert forall|j: int| 0 <= j < evidence@.verified.len() implies !((
            #[trigger] self@.judgement_at(image@, evidence@, j)) is Ok) by {
                assert(Err::<(), RejectReason>(reject_reasons@[j]) == self@.judgement_at(
                    image@,
                    evidence@,
                    j,
                ));
            }
        }
        assert(reject_reasons@ =~= self@.reject_reasons(image@, evidence@));
        Err(Error::NoAcceptableSignature(reject_reasons))
    }
}

} // verus!
