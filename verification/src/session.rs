//! One validation run, step by step.
//!
//! Judging an image takes work that this crate does not do: directories are
//! created, resources fetched and written, the signature store is listed and
//! signatures are verified. A [`Session`] decides what is done when. It hands
//! out one [`Action`] at a time and takes the outcome back as an [`Event`].
//! For each mechanism of the image's scope, in the order of the policy, the
//! mechanism is provisioned before its evidence is gathered, and its evidence
//! is gathered before it judges; the first mechanism that rejects the image
//! ends the run. An action that fails, or an event out of turn, denies the
//! image.

use crate::error::{ConfigError, Error, ErrorView};
use crate::image::{Image, ImageView};
use crate::mechanism::simple::resources::{
    copy_bytes,
    gathered_view,
    needed_resources,
    resource_writes,
    writes_view,
    ConfigDirState,
    FileWrite,
    GatheredResource,
    NamedBytes,
};
use crate::mechanism::simple::sigstore::{
    merge_fragments,
    store_location,
    LocationView,
    SigstoreConfig,
    SigstoreEntryView,
    SigstoreLocation,
};
use crate::mechanism::simple::verify::{payload_view, SigPayload, SigPayloadView};
use crate::mechanism::simple::{prepare_dirs, simple_runtime_dirs, SimpleParametersView};
use crate::mechanism::{
    blobs_view,
    opt_bytes_view,
    strings_view,
    Evidence,
    EvidenceView,
    ResourceRegistry,
    ResourceRegistryView,
    SignSchemeEnum,
    SignSchemeView,
    StoreListing,
};
use crate::policy::ref_match::rule_or_default;
use crate::policy::{
    all_accept,
    deny_view,
    schemes_view,
    DenyReason,
    DenyReasonView,
    Policy,
    PolicyView,
    ResolvedScope,
};
use crate::text::opt_view;
use vstd::prelude::*;
use vstd::string::*;

verus! {

/// What the caller is asked to do next.
#[derive(Debug, PartialEq, Eq)]
pub enum Action {
    /// Make sure that the directories `dirs` exist, then look at the
    /// directory `config_dir` and at the file `key_ring_path`.
    Provision { dirs: Vec<String>, config_dir: String, key_ring_path: String },
    /// Fetch the resources called `names` from the resource provider.
    Fetch { names: Vec<String> },
    /// Write the files `writes`, then read the key file `key_path`, if one is
    /// named, and every fragment of the directory `config_dir`.
    Install { writes: Vec<FileWrite>, key_path: Option<String>, config_dir: String },
    /// List the signatures that stand at `location`.
    List { location: SigstoreLocation },
    /// Verify each of `signatures` against `key_ring`.
    Verify { key_ring: Vec<u8>, signatures: Vec<Vec<u8>> },
    /// Nothing more: the run has ended with this outcome.
    Finish(Result<(), DenyReason>),
}

/// What came of an action.
#[derive(Debug, PartialEq, Eq)]
pub enum Event {
    /// The directories exist; this is what was seen.
    Inspected { config_dir: ConfigDirState, key_ring_present: bool },
    /// The resources that were fetched.
    Fetched(Vec<GatheredResource>),
    /// The files are written; this is the content of the key file, where it
    /// could be read, and these are the fragments of the configuration.
    Installed { key_file: Option<Vec<u8>>, fragments: Vec<SigstoreConfig> },
    /// The signatures of the store, in the order of discovery.
    Listed(Vec<Vec<u8>>),
    /// For each signature, in order: its payload where it is good, `None`
    /// where it is not.
    Verified(Vec<Option<SigPayload>>),
    /// The action could not be carried out, or not in time.
    Failed,
}

/// Where a run stands: the action whose outcome it waits for, with what was
/// gathered so far for the mechanism at hand.
#[derive(Debug, PartialEq, Eq)]
pub enum Stage {
    Provision,
    Fetch,
    Install,
    List { key_file: Option<Vec<u8>>, sigstore_config: SigstoreConfig, location: SigstoreLocation },
    Verify { key_file: Option<Vec<u8>>, sigstore_config: SigstoreConfig, store: StoreListing },
    Finished,
}

/// The mathematical value of an [`Action`].
pub enum ActionView {
    Provision { dirs: Seq<Seq<char>>, config_dir: Seq<char>, key_ring_path: Seq<char> },
    Fetch { names: Seq<Seq<char>> },
    Install { writes: Seq<NamedBytes>, key_path: Option<Seq<char>>, config_dir: Seq<char> },
    List { location: LocationView },
    Verify { key_ring: Seq<u8>, signatures: Seq<Seq<u8>> },
    Finish(Result<(), DenyReasonView>),
}

/// The mathematical value of an [`Event`].
pub enum EventView {
    Inspected { config_dir: ConfigDirState, key_ring_present: bool },
    Fetched(Seq<NamedBytes>),
    Installed { key_file: Option<Seq<u8>>, fragments: Seq<Seq<SigstoreEntryView>> },
    Listed(Seq<Seq<u8>>),
    Verified(Seq<Option<SigPayloadView>>),
    Failed,
}

/// The mathematical value of a [`Stage`].
pub enum StageView {
    Provision,
    Fetch,
    Install,
    List { key_file: Option<Seq<u8>>, sigstore_config: Seq<SigstoreEntryView>, location: LocationView },
    Verify {
        key_file: Option<Seq<u8>>,
        sigstore_config: Seq<SigstoreEntryView>,
        location: LocationView,
        signatures: Seq<Seq<u8>>,
    },
    Finished,
}

impl View for Action {
    type V = ActionView;

    open spec fn view(&self) -> ActionView {
        match *self {
            Action::Provision { dirs, config_dir, key_ring_path } => ActionView::Provision {
                dirs: strings_view(dirs),
                config_dir: config_dir@,
                key_ring_path: key_ring_path@,
            },
            Action::Fetch { names } => ActionView::Fetch { names: strings_view(names) },
            Action::Install { writes, key_path, config_dir } => ActionView::Install {
                writes: writes_view(writes),
                key_path: opt_view(key_path),
                config_dir: config_dir@,
            },
            Action::List { location } => ActionView::List { location: location@ },
            Action::Verify { key_ring, signatures } => ActionView::Verify {
                key_ring: key_ring@,
                signatures: blobs_view(signatures),
            },
            Action::Finish(outcome) => ActionView::Finish(deny_view(outcome)),
        }
    }
}

impl View for Event {
    type V = EventView;

    open spec fn view(&self) -> EventView {
        match *self {
            Event::Inspected { config_dir, key_ring_present } => EventView::Inspected {
                config_dir,
                key_ring_present,
            },
            Event::Fetched(resources) => EventView::Fetched(gathered_view(resources)),
            Event::Installed { key_file, fragments } => EventView::Installed {
                key_file: opt_bytes_view(key_file),
                fragments: fragments@.map_values(|f: SigstoreConfig| f@),
            },
            Event::Listed(signatures) => EventView::Listed(blobs_view(signatures)),
            Event::Verified(verified) => EventView::Verified(
                verified@.map_values(|p: Option<SigPayload>| payload_view(p)),
            ),
            Event::Failed => EventView::Failed,
        }
    }
}

impl View for Stage {
    type V = StageView;

    open spec fn view(&self) -> StageView {
        match *self {
            Stage::Provision => StageView::Provision,
            Stage::Fetch => StageView::Fetch,
            Stage::Install => StageView::Install,
            Stage::List { key_file, sigstore_config, location } => StageView::List {
                key_file: opt_bytes_view(key_file),
                sigstore_config: sigstore_config@,
                location: location@,
            },
            Stage::Verify { key_file, sigstore_config, store } => StageView::Verify {
                key_file: opt_bytes_view(key_file),
                sigstore_config: sigstore_config@,
                location: store.location@,
                signatures: blobs_view(store.signatures),
            },
            Stage::Finished => StageView::Finished,
        }
    }
}

/// The mathematical value of a [`Session`].
pub struct SessionView {
    pub policy: PolicyView,
    pub image: ImageView,
    pub registry: ResourceRegistryView,
    /// The evidence of the mechanisms that have judged, and allowed, the
    /// image.
    pub evidence: Seq<EvidenceView>,
    pub stage: StageView,
}

impl SessionView {
    /// The mechanisms that the image has to satisfy.
    pub open spec fn requirements(self) -> Seq<SignSchemeView> {
        self.policy.requirements(self.image)->0
    }

    /// The configuration of the mechanism at hand.
    pub open spec fn current(self) -> SimpleParametersView {
        match self.requirements()[self.evidence.len() as int] {
            SignSchemeView::SimpleSigning(parameters) => parameters,
        }
    }

    /// The run, ended.
    pub open spec fn finished(self) -> SessionView {
        SessionView { stage: StageView::Finished, ..self }
    }

    /// The run at another stage.
    pub open spec fn at(self, stage: StageView) -> SessionView {
        SessionView { stage, ..self }
    }

    /// The end of the run for the reason that the mechanism at hand failed
    /// with `cause`.
    pub open spec fn deny(self, cause: ErrorView) -> (SessionView, ActionView) {
        (
            self.finished(),
            ActionView::Finish(
                Err(
                    DenyReasonView {
                        scope: self.policy.scope_of(self.image),
                        mechanism: Some(self.evidence.len() as usize),
                        cause,
                    },
                ),
            ),
        )
    }

    /// The action that provisions a mechanism.
    pub open spec fn provision(self) -> ActionView {
        ActionView::Provision {
            dirs: simple_runtime_dirs(self.registry),
            config_dir: self.registry.sigstore_config_dir,
            key_ring_path: self.registry.key_ring_path,
        }
    }

    /// What follows once the files of the mechanism at hand are written:
    /// whatever is wrong with the configuration, the key ring or the image
    /// ends the run; else the store of the image is listed.
    pub open spec fn installed(
        self,
        key_file: Option<Seq<u8>>,
        fragments: Seq<Seq<SigstoreEntryView>>,
    ) -> (SessionView, ActionView) {
        match merge_fragments(fragments) {
            None => self.deny(ErrorView::Config(ConfigError::ConflictingSigstore)),
            Some(sigstore_config) => match self.current().key_ring(key_file) {
                Err(e) => self.deny(e),
                Ok(_) => if !rule_or_default(self.current().signed_identity).usable() {
                    self.deny(ErrorView::Config(ConfigError::InvalidSignedIdentity))
                } else {
                    match self.image.digest() {
                        Err(e) => self.deny(ErrorView::Image(e)),
                        Ok(digest) => match store_location(
                            sigstore_config,
                            self.image.reference,
                            digest,
                        ) {
                            Err(e) => self.deny(ErrorView::Config(e)),
                            Ok(location) => (
                                self.at(StageView::List { key_file, sigstore_config, location }),
                                ActionView::List { location },
                            ),
                        },
                    }
                },
            },
        }
    }

    /// What follows once the signatures of the mechanism at hand are
    /// verified: the mechanism judges. Its rejection ends the run, and so
    /// does the approval of the last mechanism; after any other approval the
    /// next mechanism is provisioned.
    pub open spec fn judged(self, evidence: EvidenceView) -> (SessionView, ActionView) {
        match self.requirements()[self.evidence.len() as int].verdict(self.image, evidence) {
            Err(e) => self.deny(e),
            Ok(_) => {
                let after = SessionView { evidence: self.evidence.push(evidence), ..self };
                if after.evidence.len() == self.requirements().len() {
                    (after.finished(), ActionView::Finish(Ok(())))
                } else {
                    (after.at(StageView::Provision), self.provision())
                }
            },
        }
    }

    /// The state after `event`, and the action to take then.
    pub open spec fn next(self, event: EventView) -> (SessionView, ActionView) {
        match (self.stage, event) {
            (StageView::Finished, _) => self.deny(ErrorView::Config(ConfigError::EvidenceMismatch)),
            (_, EventView::Failed) => self.deny(ErrorView::ResourceMissing),
            (StageView::Provision, EventView::Inspected { config_dir, key_ring_present }) => (
                self.at(StageView::Fetch),
                ActionView::Fetch {
                    names: needed_resources(self.registry, config_dir, key_ring_present),
                },
            ),
            (StageView::Fetch, EventView::Fetched(resources)) => match resource_writes(
                self.registry,
                resources,
            ) {
                Err(e) => self.deny(e),
                Ok(writes) => (
                    self.at(StageView::Install),
                    ActionView::Install {
                        writes,
                        key_path: self.current().key_path,
                        config_dir: self.registry.sigstore_config_dir,
                    },
                ),
            },
            (StageView::Install, EventView::Installed { key_file, fragments }) => self.installed(
                key_file,
                fragments,
            ),
            (
                StageView::List { key_file, sigstore_config, location },
                EventView::Listed(signatures),
            ) => match self.current().key_ring(key_file) {
                Err(e) => self.deny(e),
                Ok(key_ring) => (
                    self.at(StageView::Verify { key_file, sigstore_config, location, signatures }),
                    ActionView::Verify { key_ring, signatures },
                ),
            },
            (
                StageView::Verify { key_file, sigstore_config, location, signatures },
                EventView::Verified(verified),
            ) => self.judged(
                EvidenceView { key_file, sigstore_config, location, signatures, verified },
            ),
            _ => self.deny(ErrorView::Config(ConfigError::EvidenceMismatch)),
        }
    }
}

/// How a run begins: an image without a scope is denied at once, an empty
/// list of mechanisms goes by the policy, and any other list has its first
/// mechanism provisioned.
pub open spec fn first_step(policy: PolicyView, image: ImageView, registry: ResourceRegistryView) -> (
    SessionView,
    ActionView,
) {
    let session = SessionView {
        policy,
        image,
        registry,
        evidence: Seq::empty(),
        stage: StageView::Finished,
    };
    match policy.requirements(image) {
        None => (
            session,
            ActionView::Finish(
                Err(
                    DenyReasonView {
                        scope: None,
                        mechanism: None,
                        cause: ErrorView::ScopeResolution,
                    },
                ),
            ),
        ),
        Some(requirements) => if requirements.len() == 0 {
            (session, ActionView::Finish(policy.verdict(image, Seq::empty())))
        } else {
            (session.at(StageView::Provision), session.provision())
        },
    }
}

/// The stages of a mechanism follow one another in one order only: a run
/// that goes on moves from provisioning to fetching, to installing, to
/// listing, to verifying, and from there to the provisioning of the next
/// mechanism, the evidence of the one that has judged being kept. So no
/// mechanism judges before it was provisioned and its resources put in
/// place.
pub proof fn lemma_stages_in_order(session: SessionView, event: EventView)
    ensures
        ({
            let after = session.next(event).0;
            ||| after.stage is Finished
            ||| session.stage is Provision && after.stage is Fetch && after.evidence
                == session.evidence
            ||| session.stage is Fetch && after.stage is Install && after.evidence
                == session.evidence
            ||| session.stage is Install && after.stage is List && after.evidence
                == session.evidence
            ||| session.stage is List && after.stage is Verify && after.evidence
                == session.evidence
            ||| session.stage is Verify && after.stage is Provision && after.evidence.len()
                == session.evidence.len() + 1
        }),
        session.next(event).0.policy == session.policy,
        session.next(event).0.image == session.image,
        session.next(event).0.registry == session.registry,
{
}

/// A run ends with the image allowed on one occasion only: the last
/// mechanism of the list has judged, on signatures that were verified, and
/// has allowed the image.
pub proof fn lemma_allowed_only_after_verification(session: SessionView, event: EventView)
    requires
        session.next(event).1 matches ActionView::Finish(Ok(_)),
    ensures
        session.stage matches StageView::Verify { key_file, sigstore_config, location, signatures }
            && event matches EventView::Verified(verified) && session.requirements()[session.evidence.len() as int].verdict(
            session.image,
            EvidenceView { key_file, sigstore_config, location, signatures, verified },
        ) is Ok,
        session.evidence.len() + 1 == session.requirements().len(),
{
}

/// What ends a run at installation is what the mechanism itself would say:
/// on any evidence with that key file and that configuration of the store,
/// the mechanism rejects the image for the same cause.
pub proof fn lemma_installation_faults_are_the_mechanisms(
    session: SessionView,
    key_file: Option<Seq<u8>>,
    fragments: Seq<Seq<SigstoreEntryView>>,
    evidence: EvidenceView,
)
    requires
        merge_fragments(fragments) == Some(evidence.sigstore_config),
        evidence.key_file == key_file,
        session.installed(key_file, fragments).1 matches ActionView::Finish(Err(_)),
    ensures
        session.installed(key_file, fragments).1 matches ActionView::Finish(Err(deny))
            && session.current().verdict(session.image, evidence) == Err::<(), ErrorView>(
            deny.cause,
        ),
{
}

/// An action that fails ends the run with the image denied, at whatever
/// stage.
pub proof fn lemma_failure_denies(session: SessionView)
    ensures
        session.next(EventView::Failed).1 matches ActionView::Finish(Err(_)),
        session.next(EventView::Failed).0.stage is Finished,
{
}

/// A copy of a list of byte strings.
pub fn copy_blobs(blobs: &Vec<Vec<u8>>) -> (copy: Vec<Vec<u8>>)
    ensures
        blobs_view(copy) == blobs_view(*blobs),
{
    let mut copy: Vec<Vec<u8>> = Vec::new();
    let mut i: usize = 0;
    while i < blobs.len()
        invariant
            i <= blobs.len(),
            blobs_view(copy) == blobs_view(*blobs).take(i as int),
        decreases blobs.len() - i,
    {
        let ghost before = blobs_view(copy);
        copy.push(copy_bytes(&blobs[i]));
        assert(blobs_view(copy) =~= before.push(blobs@[i as int]@));
        assert(blobs_view(copy) =~= blobs_view(*blobs).take(i + 1));
        i += 1;
    }
    assert(blobs_view(*blobs).take(i as int) =~= blobs_view(*blobs));
    copy
}

/// One validation run.
pub struct Session<'a> {
    policy: &'a Policy,
    image: &'a Image,
    registry: &'a ResourceRegistry,
    requirements: Option<&'a Vec<SignSchemeEnum>>,
    scope: Option<ResolvedScope>,
    evidence: Vec<Evidence>,
    stage: Stage,
}

impl<'a> View for Session<'a> {
    type V = SessionView;

    closed spec fn view(&self) -> SessionView {
        SessionView {
            policy: self.policy@,
            image: self.image@,
            registry: self.registry@,
            evidence: self.evidence@.map_values(|e: Evidence| e@),
            stage: self.stage@,
        }
    }
}

impl<'a> Session<'a> {
    /// A run is never further than its list of mechanisms, and every
    /// mechanism that it has left behind has allowed the image.
    #[verifier::type_invariant]
    closed spec fn inv(self) -> bool {
        &&& self.scope == self.policy@.scope_of(self.image@)
        &&& match self.requirements {
            Some(list) => {
                &&& self.policy@.requirements(self.image@) == Some(schemes_view(*list))
                &&& self.evidence.len() <= list.len()
                &&& self.stage !is Finished ==> self.evidence.len() < list.len()
                &&& forall|j: int|
                    0 <= j < self.evidence.len() ==> (#[trigger] schemes_view(*list)[j].verdict(
                        self.image@,
                        self@.evidence[j],
                    )) is Ok
            },
            None => self.policy@.requirements(self.image@) is None && self.stage is Finished
                && self.evidence.len() == 0,
        }
    }

    /// Begins the run for `image` under `policy`.
    pub fn start(policy: &'a Policy, image: &'a Image, registry: &'a ResourceRegistry) -> (first: (
        Session<'a>,
        Action,
    ))
        ensures
            first.0@ == first_step(policy@, image@, registry@).0,
            first.1@ == first_step(policy@, image@, registry@).1,
            first.1@ matches ActionView::Finish(Ok(_)) ==> policy@.verdict(
                image@,
                first.0@.evidence,
            ) is Ok,
    {
        let scope = policy.resolve_scope(image);
        let evidence: Vec<Evidence> = Vec::new();
        assert(evidence@.map_values(|e: Evidence| e@) =~= Seq::<EvidenceView>::empty());
        match policy.signature_schemes(image) {
            Err(cause) => {
                let session = Session {
                    policy,
                    image,
                    registry,
                    requirements: None,
                    scope,
                    evidence,
                    stage: Stage::Finished,
                };
                (session, Action::Finish(Err(DenyReason { scope: None, mechanism: None, cause })))
            },
            Ok(list) => {
                if list.len() == 0 {
                    let outcome = if policy.accept_empty {
                        Ok(())
                    } else {
                        Err(
                            DenyReason {
                                scope,
                                mechanism: None,
                                cause: Error::Config(ConfigError::EmptyRequirements),
                            },
                        )
                    };
                    let session = Session {
                        policy,
                        image,
                        registry,
                        requirements: Some(list),
                        scope,
                        evidence,
                        stage: Stage::Finished,
                    };
                    (session, Action::Finish(outcome))
                } else {
                    let session = Session {
                        policy,
                        image,
                        registry,
                        requirements: Some(list),
                        scope,
                        evidence,
                        stage: Stage::Provision,
                    };
                    (session, provision_action(registry))
                }
            },
        }
    }

    /// Whether the run has ended.
    pub fn is_finished(&self) -> (done: bool)
        ensures
            done == (self@.stage is Finished),
    {
        match &self.stage {
            Stage::Finished => true,
            _ => false,
        }
    }

    /// The evidence of the mechanisms that have allowed the image so far.
    pub fn evidence(&self) -> (list: &Vec<Evidence>)
        ensures
            list@.map_values(|e: Evidence| e@) == self@.evidence,
    {
        &self.evidence
    }

    /// Takes the outcome of the last action and says what to do next.
    pub fn step(self, event: Event) -> (next: (Session<'a>, Action))
        ensures
            next.0@ == self@.next(event@).0,
            next.1@ == self@.next(event@).1,
            next.0@.policy == self@.policy && next.0@.image == self@.image,
            next.1@ matches ActionView::Finish(Ok(_)) ==> self@.policy.verdict(
                self@.image,
                next.0@.evidence,
            ) is Ok,
    {
        proof {
            use_type_invariant(&self);
        }
        let Session { policy, image, registry, requirements, scope, evidence, stage } = self;
        let list = match requirements {
            Some(list) => list,
            None => {
                let session = Session {
                    policy,
                    image,
                    registry,
                    requirements: None,
                    scope,
                    evidence,
                    stage: Stage::Finished,
                };
                let mechanism = Some(session.evidence.len());
                return (
                    session,
                    Action::Finish(
                        Err(
                            DenyReason {
                                scope,
                                mechanism,
                                cause: Error::Config(ConfigError::EvidenceMismatch),
                            },
                        ),
                    ),
                );
            },
        };
        let index = evidence.len();
        let (stage, outcome): (Stage, Result<Action, Error>) = match stage {
            Stage::Finished => (Stage::Finished, Err(Error::Config(ConfigError::EvidenceMismatch))),
            stage => {
                assert(list@[index as int]@ == schemes_view(*list)[index as int]);
                let SignSchemeEnum::SimpleSigning(parameters) = &list[index];
                match (stage, event) {
                    (_, Event::Failed) => (Stage::Finished, Err(Error::ResourceMissing)),
                    (Stage::Provision, Event::Inspected { config_dir, key_ring_present }) => {
                        let names = parameters.resources_check(
                            registry,
                            config_dir,
                            key_ring_present,
                        );
                        (Stage::Fetch, Ok(Action::Fetch { names }))
                    },
                    (Stage::Fetch, Event::Fetched(resources)) => {
                        match parameters.process_gathered_resources(registry, &resources) {
                            Err(e) => (Stage::Finished, Err(e)),
                            Ok(writes) => (
                                Stage::Install,
                                Ok(
                                    Action::Install {
                                        writes,
                                        key_path: parameters.key_path.clone(),
                                        config_dir: registry.sigstore_config_dir.clone(),
                                    },
                                ),
                            ),
                        }
                    },
                    (Stage::Install, Event::Installed { key_file, fragments }) => {
                        match SigstoreConfig::new_from_configs(&fragments) {
                            Err(e) => (Stage::Finished, Err(Error::Config(e))),
                            Ok(sigstore_config) => match parameters.key_ring(&key_file) {
                                Err(e) => (Stage::Finished, Err(e)),
                                Ok(_) => {
                                    let usable = match &parameters.signed_identity {
                                        Some(rule) => rule.check(),
                                        None => Ok(()),
                                    };
                                    match usable {
                                        Err(e) => (Stage::Finished, Err(Error::Config(e))),
                                        Ok(_) => match image.resolved_digest() {
                                            Err(e) => (Stage::Finished, Err(Error::Image(e))),
                                            Ok(digest) => match sigstore_config.locate(
                                                &image.reference,
                                                &digest,
                                            ) {
                                                Err(e) => (Stage::Finished, Err(Error::Config(e))),
                                                Ok(location) => {
                                                    let asked = location.duplicate();
                                                    (
                                                        Stage::List {
                                                            key_file,
                                                            sigstore_config,
                                                            location,
                                                        },
                                                        Ok(Action::List { location: asked }),
                                                    )
                                                },
                                            },
                                        },
                                    }
                                },
                            },
                        }
                    },
                    (
                        Stage::List { key_file, sigstore_config, location },
                        Event::Listed(signatures),
                    ) => {
                        match parameters.key_ring(&key_file) {
                            Err(e) => (Stage::Finished, Err(e)),
                            Ok(key_ring) => {
                                let sent = copy_blobs(&signatures);
                                (
                                    Stage::Verify {
                                        key_file,
                                        sigstore_config,
                                        store: StoreListing { location, signatures },
                                    },
                                    Ok(Action::Verify { key_ring, signatures: sent }),
                                )
                            },
                        }
                    },
                    (
                        Stage::Verify { key_file, sigstore_config, store },
                        Event::Verified(verified),
                    ) => {
                        let gathered = Evidence { key_file, sigstore_config, store, verified };
                        match list[index].allows_image(image, &gathered) {
                            Err(e) => (Stage::Finished, Err(e)),
                            Ok(_) => {
                                let ghost judged = gathered@;
                                let mut evidence = evidence;
                                let ghost earlier = evidence@.map_values(|e: Evidence| e@);
                                evidence.push(gathered);
                                assert(evidence@.map_values(|e: Evidence| e@) =~= earlier.push(
                                    judged,
                                ));
                                let last = evidence.len() == list.len();
                                let session = Session {
                                    policy,
                                    image,
                                    registry,
                                    requirements: Some(list),
                                    scope,
                                    evidence,
                                    stage: if last {
                                        Stage::Finished
                                    } else {
                                        Stage::Provision
                                    },
                                };
                                proof {
                                    if last {
                                        assert(all_accept(
                                            schemes_view(*list),
                                            image@,
                                            session@.evidence,
                                        ));
                                    }
                                }
                                return (
                                    session,
                                    if last {
                                        Action::Finish(Ok(()))
                                    } else {
                                        provision_action(registry)
                                    },
                                );
                            },
                        }
                    },
                    _ => (Stage::Finished, Err(Error::Config(ConfigError::EvidenceMismatch))),
                }
            },
        };
        let session = Session {
            policy,
            image,
            registry,
            requirements: Some(list),
            scope,
            evidence,
            stage,
        };
        match outcome {
            Ok(action) => (session, action),
            Err(cause) => (
                session,
                Action::Finish(Err(DenyReason { scope, mechanism: Some(index), cause })),
            ),
        }
    }
}

/// The action that provisions a mechanism.
fn provision_action(registry: &ResourceRegistry) -> (action: Action)
    ensures
        action@ == (ActionView::Provision {
            dirs: simple_runtime_dirs(registry@),
            config_dir: registry@.sigstore_config_dir,
            key_ring_path: registry@.key_ring_path,
        }),
{
    Action::Provision {
        dirs: prepare_dirs(registry),
        config_dir: registry.sigstore_config_dir.clone(),
        key_ring_path: registry.key_ring_path.clone(),
    }
}

} // verus!
