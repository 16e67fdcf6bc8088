//! The decision in front of a pull: one image, one policy, one verdict.
//!
//! Everything that touches the outside world is done by the caller: it
//! fetches the resources that the mechanisms ask for, looks into the
//! signature store, checks the signatures cryptographically, and hands the
//! outcome in as [`Evidence`].

use crate::error::{ConfigError, Error, ErrorView, ImageError};
use crate::image::digest::digest_parts;
use crate::image::reference::{parsed_reference, Reference};
use crate::image::{Image, ImageView};
use crate::mechanism::{Evidence, EvidenceView};
use crate::policy::{deny_view, DenyReason, DenyReasonView, Policy, PolicyView};
use crate::text::to_chars;
use std::collections::HashMap;
use vstd::prelude::*;
use vstd::string::*;

verus! {

/// Address of the local service that resources are asked from.
pub const AA_GETRESOURCE_ADDR: &'static str = "http://127.0.0.1:50001";

/// Directory that holds the policy and the resources of the mechanisms.
pub const IMAGE_SECURITY_CONFIG_DIR: &'static str = "/run/image-security";

/// File that holds the policy.
pub const POLICY_FILE_PATH: &'static str = "/run/image-security/security_policy.json";

/// Name under which the policy is asked for.
pub const POLICY_RESOURCE: &'static str = "Policy";

/// The description of a resource, as it is passed along when the resource is
/// asked for.
#[derive(Clone, Debug, PartialEq, Eq)]
pub struct ResourceDescription {
    pub name: String,
    pub optional: HashMap<String, String>,
}

impl ResourceDescription {
    /// The description of the resource called `name`, without options.
    pub fn new(name: &str) -> (description: Self)
        ensures
            description.name@ == name@,
            description.optional@ == Map::<String, String>::empty(),
    {
        ResourceDescription { name: String::from_str(name), optional: HashMap::new() }
    }
}

/// A request for one resource, addressed to a key broker.
#[derive(Clone, Debug, PartialEq, Eq)]
pub struct ResourceRequest {
    /// The key broker client to go through.
    pub kbc_name: String,
    /// The key broker service to ask.
    pub kbs_uri: String,
    /// The resource that is asked for.
    pub resource: ResourceDescription,
}

/// The first `::` of `params` is at `i`.
pub open spec fn is_first_separator(params: Seq<char>, i: int) -> bool {
    &&& 0 <= i
    &&& i + 1 < params.len()
    &&& params[i] == ':'
    &&& params[i + 1] == ':'
    &&& forall|j: int| 0 <= j < i ==> !(params[j] == ':' && #[trigger] params[j + 1] == ':')
}

/// Broker parameters hold the name of a key broker client and the URI of a
/// key broker service, with `::` between the two: what stands before the
/// first `::` of `params`, and what stands after it.
pub open spec fn broker_pair(params: Seq<char>) -> Result<(Seq<char>, Seq<char>), ConfigError> {
    if exists|i: int| is_first_separator(params, i) {
        let i = choose|i: int| is_first_separator(params, i);
        if i == 0 {
            Err(ConfigError::MissingBrokerName)
        } else if i + 2 == params.len() {
            Err(ConfigError::MissingBrokerUri)
        } else {
            Ok((params.subrange(0, i), params.subrange(i + 2, params.len() as int)))
        }
    } else {
        Err(ConfigError::BrokerPairNotFound)
    }
}

/// The first `::` of a text is in one place only.
pub proof fn lemma_first_separator_unique(params: Seq<char>, i: int, j: int)
    requires
        is_first_separator(params, i),
        is_first_separator(params, j),
    ensures
        i == j,
{
    if i < j {
        assert(params[i + 1] == ':');
    } else if j < i {
        assert(params[j + 1] == ':');
    }
}

/// Finds the first `::` of `text`.
pub fn find_separator(text: &Vec<char>) -> (at: Option<usize>)
    ensures
        match at {
            Some(i) => is_first_separator(text@, i as int),
            None => forall|i: int| !is_first_separator(text@, i),
        },
{
    if text.len() < 2 {
        return None;
    }
    let mut i: usize = 0;
    while i < text.len() - 1
        invariant
            text.len() >= 2,
            i <= text.len() - 1,
            forall|j: int| 0 <= j < i ==> !(text@[j] == ':' && #[trigger] text@[j + 1] == ':'),
        decreases text.len() - i,
    {
        if text[i] == ':' && text[i + 1] == ':' {
            return Some(i);
        }
        i += 1;
    }
    assert forall|k: int| !is_first_separator(text@, k) by {
        if is_first_separator(text@, k) {
            assert(text@[k + 1] == ':');
        }
    }
    None
}

/// The request for the resource called `resource_name`, to the key broker
/// that `aa_kbc_params` names.
pub fn resource_request(resource_name: &str, aa_kbc_params: &str) -> (r: Result<
    ResourceRequest,
    ConfigError,
>)
    ensures
        match r {
            Ok(request) => broker_pair(aa_kbc_params@) == Ok::<
                (Seq<char>, Seq<char>),
                ConfigError,
            >((request.kbc_name@, request.kbs_uri@)) && request.resource.name@ == resource_name@
                && request.resource.optional@ == Map::<String, String>::empty(),
            Err(e) => broker_pair(aa_kbc_params@) == Err::<(Seq<char>, Seq<char>), ConfigError>(e),
        },
{
    let chars = to_chars(aa_kbc_params);
    let at = match find_separator(&chars) {
        Some(i) => i,
        None => {
            return Err(ConfigError::BrokerPairNotFound);
        },
    };
    proof {
        lemma_first_separator_unique(
            aa_kbc_params@,
            at as int,
            choose|i: int| is_first_separator(aa_kbc_params@, i),
        );
    }
    if at == 0 {
        return Err(ConfigError::MissingBrokerName);
    }
    if at == chars.len() - 2 {
        return Err(ConfigError::MissingBrokerUri);
    }
    let kbc_name = String::from_str(aa_kbc_params.substring_char(0, at));
    let kbs_uri = String::from_str(aa_kbc_params.substring_char(at + 2, chars.len()));
    Ok(ResourceRequest { kbc_name, kbs_uri, resource: ResourceDescription::new(resource_name) })
}

/// The image to judge, from its reference and the digest of its manifest as
/// the caller has them.
pub open spec fn image_of(image_reference: Seq<char>, image_digest: Seq<char>) -> Result<
    ImageView,
    ImageError,
> {
    match parsed_reference(image_reference) {
        None => Err(ImageError::InvalidReference),
        Some(reference) => match digest_parts(image_digest) {
            None => Err(ImageError::InvalidDigest),
            Some(digest) => Ok(ImageView { reference, manifest_digest: Some(digest) }),
        },
    }
}

/// Builds the image to judge.
pub fn prepare_image(image_reference: &str, image_digest: &str) -> (r: Result<Image, ImageError>)
    ensures
        match r {
            Ok(image) => image_of(image_reference@, image_digest@) == Ok::<ImageView, ImageError>(
                image@,
            ),
            Err(e) => image_of(image_reference@, image_digest@) == Err::<ImageView, ImageError>(e),
        },
{
    let reference = match Reference::parse(image_reference) {
        Ok(r) => r,
        Err(e) => {
            return Err(e);
        },
    };
    let mut image = Image::default_with_reference(reference);
    match image.set_manifest_digest(image_digest) {
        Ok(_) => Ok(image),
        Err(e) => Err(e),
    }
}

/// The verdict on pulling the image `image_reference` whose manifest has the
/// digest `image_digest`: that of the policy, once both describe an image.
pub open spec fn validation(
    image_reference: Seq<char>,
    image_digest: Seq<char>,
    policy: PolicyView,
    evidence: Seq<EvidenceView>,
) -> Result<(), DenyReasonView> {
    match image_of(image_reference, image_digest) {
        Err(e) => Err(DenyReasonView { scope: None, mechanism: None, cause: ErrorView::Image(e) }),
        Ok(image) => policy.verdict(image, evidence),
    }
}

/// Judges whether an image may be pulled and run. `evidence` holds what was
/// gathered for each mechanism that the policy binds to the image, in the
/// order of the policy.
pub fn security_validate(
    image_reference: &str,
    image_digest: &str,
    policy: &Policy,
    evidence: &Vec<Evidence>,
) -> (r: Result<(), DenyReason>)
    ensures
        deny_view(r) == validation(
            image_reference@,
            image_digest@,
            policy@,
            evidence@.map_values(|e: Evidence| e@),
        ),
{
    let image = match prepare_image(image_reference, image_digest) {
        Ok(image) => image,
        Err(e) => {
            return Err(DenyReason { scope: None, mechanism: None, cause: Error::Image(e) });
        },
    };
    policy.is_image_allowed(&image, evidence)
}

} // verus!
