//! The signing mechanisms that a policy can ask for.
//!
//! The set of mechanisms is closed: [`SignSchemeEnum`] has one variant for
//! each, carrying its configuration, and [`SignScheme`] is what all of them
//! offer. A mechanism never reads a file or a socket itself. It says which
//! resources it needs and where they belong, and it judges an image on the
//! [`Evidence`] that was gathered for it.

pub mod simple;

use crate::error::{outcome_view, Error, ErrorView};
use crate::image::{Image, ImageView};
use crate::mechanism::simple::sigstore::{
    LocationView,
    SigstoreConfig,
    SigstoreEntryView,
    SigstoreLocation,
};
use crate::mechanism::simple::verify::{payload_view, SigPayload, SigPayloadView};
use crate::mechanism::simple::{SimpleParameters, SimpleParametersView};
use vstd::prelude::*;
use vstd::string::*;

verus! {

/// Root of the run-time storage of the simple-signing mechanism.
pub const CONFIG_DIR: &'static str = "/run/image-security/simple_signing";

/// Directory of the signature-store configuration.
pub const SIG_STORE_CONFIG_DIR: &'static str = "/run/image-security/simple_signing/sigstore_config";

/// File that holds the public key ring.
pub const GPG_KEY_RING: &'static str = "/run/image-security/simple_signing/pubkey.gpg";

/// Name under which the signature-store configuration is asked for.
pub const SIGSTORE_CONFIG_KBS: &'static str = "Sigstore Config";

/// Name under which the public key ring is asked for.
pub const GPG_KEY_RING_KBS: &'static str = "GPG Keyring";

/// The names and places of the resources that the mechanisms work with.
#[derive(Clone, Debug, PartialEq, Eq)]
pub struct ResourceRegistry {
    /// Root of the mechanism's run-time storage.
    pub config_dir: String,
    /// Directory of the signature-store configuration.
    pub sigstore_config_dir: String,
    /// File that holds the public key ring.
    pub key_ring_path: String,
    /// Name under which the signature-store configuration is asked for.
    pub sigstore_config_name: String,
    /// Name under which the public key ring is asked for.
    pub key_ring_name: String,
}

/// The mathematical value of a [`ResourceRegistry`].
pub struct ResourceRegistryView {
    pub config_dir: Seq<char>,
    pub sigstore_config_dir: Seq<char>,
    pub key_ring_path: Seq<char>,
    pub sigstore_config_name: Seq<char>,
    pub key_ring_name: Seq<char>,
}

impl View for ResourceRegistry {
    type V = ResourceRegistryView;

    open spec fn view(&self) -> ResourceRegistryView {
        ResourceRegistryView {
            config_dir: self.config_dir@,
            sigstore_config_dir: self.sigstore_config_dir@,
            key_ring_path: self.key_ring_path@,
            sigstore_config_name: self.sigstore_config_name@,
            key_ring_name: self.key_ring_name@,
        }
    }
}

/// The registry of a standard installation.
pub open spec fn standard_registry() -> ResourceRegistryView {
    ResourceRegistryView {
        config_dir: CONFIG_DIR@,
        sigstore_config_dir: SIG_STORE_CONFIG_DIR@,
        key_ring_path: GPG_KEY_RING@,
        sigstore_config_name: SIGSTORE_CONFIG_KBS@,
        key_ring_name: GPG_KEY_RING_KBS@,
    }
}

impl ResourceRegistry {
    /// The registry of a standard installation.
    pub fn standard() -> (registry: ResourceRegistry)
        ensures
            registry@ == standard_registry(),
    {
        ResourceRegistry {
            config_dir: String::from_str(CONFIG_DIR),
            sigstore_config_dir: String::from_str(SIG_STORE_CONFIG_DIR),
            key_ring_path: String::from_str(GPG_KEY_RING),
            sigstore_config_name: String::from_str(SIGSTORE_CONFIG_KBS),
            key_ring_name: String::from_str(GPG_KEY_RING_KBS),
        }
    }
}

/// One line of a resource manifest: a resource, and the file that its bytes
/// have to be written to before an image is judged.
#[derive(Clone, Debug, PartialEq, Eq)]
pub struct ResourceEntry {
    pub name: String,
    pub path: String,
}

/// The mathematical value of a [`ResourceEntry`].
pub struct ResourceEntryView {
    pub name: Seq<char>,
    pub path: Seq<char>,
}

impl View for ResourceEntry {
    type V = ResourceEntryView;

    open spec fn view(&self) -> ResourceEntryView {
        ResourceEntryView { name: self.name@, path: self.path@ }
    }
}

/// The view of a resource manifest.
pub open spec fn manifest_view(manifest: Vec<ResourceEntry>) -> Seq<ResourceEntryView> {
    manifest@.map_values(|e: ResourceEntry| e@)
}

/// The view of a list of strings.
pub open spec fn strings_view(list: Vec<String>) -> Seq<Seq<char>> {
    list@.map_values(|s: String| s@)
}

/// The view of a list of byte strings.
pub open spec fn blobs_view(list: Vec<Vec<u8>>) -> Seq<Seq<u8>> {
    list@.map_values(|b: Vec<u8>| b@)
}

/// The view of an optional byte string.
pub open spec fn opt_bytes_view(bytes: Option<Vec<u8>>) -> Option<Seq<u8>> {
    match bytes {
        Some(b) => Some(b@),
        None => None,
    }
}

/// What was found in a signature store: the place that was looked at, and
/// the signature blobs that stood there, in the order of discovery.
#[derive(Clone, Debug, PartialEq, Eq)]
pub struct StoreListing {
    pub location: SigstoreLocation,
    pub signatures: Vec<Vec<u8>>,
}

/// What was gathered for one mechanism before it judges an image.
#[derive(Clone, Debug, PartialEq, Eq)]
pub struct Evidence {
    /// The content of the key-ring file, where one is configured and could be
    /// read.
    pub key_file: Option<Vec<u8>>,
    /// The signature-store configuration, merged from its fragments.
    pub sigstore_config: SigstoreConfig,
    /// What the signature store held for the image.
    pub store: StoreListing,
    /// For each signature of the listing, in order: its payload where the
    /// cryptographic check against the key ring passed, `None` where it
    /// failed.
    pub verified: Vec<Option<SigPayload>>,
}

/// The mathematical value of an [`Evidence`].
pub struct EvidenceView {
    pub key_file: Option<Seq<u8>>,
    pub sigstore_config: Seq<SigstoreEntryView>,
    pub location: LocationView,
    pub signatures: Seq<Seq<u8>>,
    pub verified: Seq<Option<SigPayloadView>>,
}

impl View for Evidence {
    type V = EvidenceView;

    open spec fn view(&self) -> EvidenceView {
        EvidenceView {
            key_file: opt_bytes_view(self.key_file),
            sigstore_config: self.sigstore_config@,
            location: self.store.location@,
            signatures: blobs_view(self.store.signatures),
            verified: self.verified@.map_values(|p: Option<SigPayload>| payload_view(p)),
        }
    }
}

/// What every signing mechanism offers.
pub trait SignScheme {
    /// The directories that the mechanism keeps its resources in.
    spec fn runtime_dirs(&self, registry: ResourceRegistryView) -> Seq<Seq<char>>;

    /// The resources that the mechanism needs, each with the file it belongs
    /// in.
    spec fn manifest(&self, registry: ResourceRegistryView) -> Seq<ResourceEntryView>;

    /// The mechanism's verdict on an image, given the evidence.
    spec fn verdict(&self, image: ImageView, evidence: EvidenceView) -> Result<(), ErrorView>;

    /// Prepares the mechanism: names the directories that have to exist
    /// before its resources are put in place. The answer is the same however
    /// often it is asked for.
    fn init(&self, registry: &ResourceRegistry) -> (dirs: Vec<String>)
        ensures
            strings_view(dirs) == self.runtime_dirs(registry@),
    ;

    /// The resources to gather for the mechanism: name of the resource, and
    /// path of the file that its bytes go to.
    fn resource_manifest(&self, registry: &ResourceRegistry) -> (manifest: Vec<ResourceEntry>)
        ensures
            manifest_view(manifest) == self.manifest(registry@),
    ;

    /// Judges whether the mechanism allows the image.
    fn allows_image(&self, image: &Image, evidence: &Evidence) -> (r: Result<(), Error>)
        ensures
            outcome_view(r) == self.verdict(image@, evidence@),
    ;
}

/// The signing mechanisms, each with its configuration.
#[derive(Clone, Debug, PartialEq, Eq)]
pub enum SignSchemeEnum {
    /// Simple signing: detached signatures checked against a key ring.
    SimpleSigning(SimpleParameters),
}

/// The mathematical value of a [`SignSchemeEnum`].
pub enum SignSchemeView {
    SimpleSigning(SimpleParametersView),
}

impl View for SignSchemeEnum {
    type V = SignSchemeView;

    open spec fn view(&self) -> SignSchemeView {
        match *self {
            SignSchemeEnum::SimpleSigning(parameters) => SignSchemeView::SimpleSigning(parameters@),
        }
    }
}

impl SignSchemeView {
    /// The verdict of the mechanism that the configuration stands for.
    pub open spec fn verdict(self, image: ImageView, evidence: EvidenceView) -> Result<
        (),
        ErrorView,
    > {
        match self {
            SignSchemeView::SimpleSigning(parameters) => parameters.verdict(image, evidence),
        }
    }
}

impl SignSchemeEnum {
    /// The mechanism behind the configuration, to call what all mechanisms
    /// offer: the parameters that the variant carries, seen as a mechanism.
    /// Where a verdict has to be relied on, ask [`SignSchemeEnum::allows_image`].
    pub fn inner_ref(&self) -> (scheme: &dyn SignScheme)
        ensures
            scheme == as_scheme(&self->SimpleSigning_0),
    {
        let SignSchemeEnum::SimpleSigning(parameters) = self;
        let scheme: &dyn SignScheme = parameters;
        return scheme;
    }

    /// Judges whether the mechanism behind the configuration allows the
    /// image.
    pub fn allows_image(&self, image: &Image, evidence: &Evidence) -> (r: Result<(), Error>)
        ensures
            outcome_view(r) == self@.verdict(image@, evidence@),
    {
        match self {
            SignSchemeEnum::SimpleSigning(scheme) => scheme.allows_image(image, evidence),
        }
    }
}

/// The parameters of simple signing, seen as a mechanism: the same value,
/// behind the interface that all mechanisms share.
pub open spec fn as_scheme(parameters: &SimpleParameters) -> &dyn SignScheme {
    parameters
}

/// The directories that all mechanisms together keep their resources in.
pub open spec fn all_runtime_dirs(registry: ResourceRegistryView) -> Seq<Seq<char>> {
    crate::mechanism::simple::simple_runtime_dirs(registry)
}

/// Prepares every known mechanism, whether a policy uses it or not: names
/// the directories that have to exist before any resource is put in place.
pub fn init_all_signing_schemes(registry: &ResourceRegistry) -> (dirs: Vec<String>)
    ensures
        strings_view(dirs) == all_runtime_dirs(registry@),
{
    crate::mechanism::simple::prepare_dirs(registry)
}

} // verus!
