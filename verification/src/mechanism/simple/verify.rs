//! What a verified signature asserts, and how it is held against the image.

use crate::error::RejectReason;
use crate::image::reference::{Reference, ReferenceView};
use crate::policy::ref_match::{rule_or_default, MatchRule, PolicyReqMatchType};
use crate::text::str_eq;
use vstd::prelude::*;
use vstd::string::*;

verus! {

/// The content of a signed document, as recovered from a signature whose
/// cryptographic check against the key ring has passed.
#[derive(Clone, Debug, PartialEq, Eq)]
pub struct SigPayload {
    /// The image identity that the signer vouches for.
    pub docker_reference: String,
    /// The manifest digest that the signer vouches for.
    pub docker_manifest_digest: String,
}

/// The mathematical value of a [`SigPayload`].
pub struct SigPayloadView {
    pub docker_reference: Seq<char>,
    pub docker_manifest_digest: Seq<char>,
}

impl View for SigPayload {
    type V = SigPayloadView;

    open spec fn view(&self) -> SigPayloadView {
        SigPayloadView {
            docker_reference: self.docker_reference@,
            docker_manifest_digest: self.docker_manifest_digest@,
        }
    }
}

/// The view of an optional payload.
pub open spec fn payload_view(p: Option<SigPayload>) -> Option<SigPayloadView> {
    match p {
        Some(payload) => Some(payload@),
        None => None,
    }
}

/// The view of an optional match rule.
pub open spec fn rule_view(rule: Option<&PolicyReqMatchType>) -> Option<MatchRule> {
    match rule {
        Some(r) => Some(r@),
        None => None,
    }
}

impl SigPayloadView {
    /// The claimed identity is acceptable for an image pulled as `pulled`
    /// under `rule`, exact match standing in where no rule is given.
    pub open spec fn identity_ok(self, pulled: ReferenceView, rule: Option<MatchRule>) -> bool {
        rule_or_default(rule).accepts_text(pulled, self.docker_reference)
    }

    /// The claimed digest is, letter for letter, `digest`.
    pub open spec fn digest_ok(self, digest: Seq<char>) -> bool {
        self.docker_manifest_digest == digest
    }
}

/// The verdict on one candidate signature. `verified` is its payload where
/// the cryptographic check passed and `None` where it failed; `digest` the
/// digest that the image goes by, where it has one. The three tests are made
/// in order, and the first that fails gives the reason.
pub open spec fn judgement(
    pulled: ReferenceView,
    digest: Option<Seq<char>>,
    rule: Option<MatchRule>,
    verified: Option<SigPayloadView>,
) -> Result<(), RejectReason> {
    match verified {
        None => Err(RejectReason::SignatureFormat),
        Some(payload) => if !payload.identity_ok(pulled, rule) {
            Err(RejectReason::IdentityMismatch)
        } else if digest != Some(payload.docker_manifest_digest) {
            Err(RejectReason::DigestMismatch)
        } else {
            Ok(())
        },
    }
}

impl SigPayload {
    /// The image identity that the signer vouches for.
    pub fn docker_reference(&self) -> (s: &str)
        ensures
            s@ == self@.docker_reference,
    {
        self.docker_reference.as_str()
    }

    /// The manifest digest that the signer vouches for.
    pub fn docker_manifest_digest(&self) -> (s: &str)
        ensures
            s@ == self@.docker_manifest_digest,
    {
        self.docker_manifest_digest.as_str()
    }

    /// Holds the claimed identity against the reference that the image was
    /// pulled under.
    pub fn validate_signed_docker_reference(
        &self,
        image_ref: &Reference,
        signed_identity: Option<&PolicyReqMatchType>,
    ) -> (r: Result<(), RejectReason>)
        ensures
            r is Ok <==> self@.identity_ok(image_ref@, rule_view(signed_identity)),
            r is Err ==> r == Err::<(), RejectReason>(RejectReason::IdentityMismatch),
    {
        let accepted = match signed_identity {
            Some(rule) => rule.matches_docker_reference(image_ref, self.docker_reference.as_str()),
            None => PolicyReqMatchType::default_match_policy().matches_docker_reference(
                image_ref,
                self.docker_reference.as_str(),
            ),
        };
        if accepted {
            Ok(())
        } else {
            Err(RejectReason::IdentityMismatch)
        }
    }

    /// Holds the claimed digest against the digest of the pulled manifest.
    pub fn validate_signed_docker_manifest_digest(&self, digest: &str) -> (r: Result<
        (),
        RejectReason,
    >)
        ensures
            r is Ok <==> self@.digest_ok(digest@),
            r is Err ==> r == Err::<(), RejectReason>(RejectReason::DigestMismatch),
    {
        if str_eq(self.docker_manifest_digest.as_str(), digest) {
            Ok(())
        } else {
            Err(RejectReason::DigestMismatch)
        }
    }
}

} // verus!
