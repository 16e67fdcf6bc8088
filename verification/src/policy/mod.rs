//! The trust policy: which mechanisms an image has to satisfy.
//!
//! A policy binds lists of mechanisms to scopes. A scope is a transport
//! together with a text that covers an image: its reference in normal form,
//! its name with the tag, its name alone, or a namespace that its name lies
//! in. Of the scopes that cover an image the longest wins, which is the most
//! specific one; the default list stands in where none does. An image is
//! allowed when every mechanism of the list allows it.

pub mod ref_match;

use crate::error::{ConfigError, Error, ErrorView};
use crate::image::reference::ReferenceView;
use crate::image::{docker_transport, Image, ImageView};
use crate::mechanism::{Evidence, EvidenceView, SignSchemeEnum, SignSchemeView};
use crate::select::pick_longest;
use crate::text::{chars_eq, is_prefix, lemma_prefixes_of_same, starts_with_then, str_eq, to_chars};
use vstd::prelude::*;
use vstd::string::*;

verus! {

/// The mechanisms bound to one scope.
#[derive(Clone, Debug, PartialEq, Eq)]
pub struct PolicyScope {
    /// The transport that the scope belongs to.
    pub transport: String,
    /// The text that covers the images of the scope.
    pub scope: String,
    /// The mechanisms that an image of the scope has to satisfy, all of them.
    pub requirements: Vec<SignSchemeEnum>,
}

/// A trust policy.
#[derive(Clone, Debug, PartialEq, Eq)]
pub struct Policy {
    /// The mechanisms for the images that no scope covers, if there are any.
    pub default: Option<Vec<SignSchemeEnum>>,
    /// The scopes, in the order in which they were read.
    pub scopes: Vec<PolicyScope>,
    /// What an empty list of mechanisms means: `true` allows every image that
    /// resolves to it, `false` none.
    pub accept_empty: bool,
}

/// The view of a list of mechanisms.
pub open spec fn schemes_view(list: Vec<SignSchemeEnum>) -> Seq<SignSchemeView> {
    list@.map_values(|s: SignSchemeEnum| s@)
}

/// The mathematical value of a [`PolicyScope`].
pub struct ScopeView {
    pub transport: Seq<char>,
    pub scope: Seq<char>,
    pub requirements: Seq<SignSchemeView>,
}

impl View for PolicyScope {
    type V = ScopeView;

    open spec fn view(&self) -> ScopeView {
        ScopeView {
            transport: self.transport@,
            scope: self.scope@,
            requirements: schemes_view(self.requirements),
        }
    }
}

/// The mathematical value of a [`Policy`].
pub struct PolicyView {
    pub default: Option<Seq<SignSchemeView>>,
    pub scopes: Seq<ScopeView>,
    pub accept_empty: bool,
}

impl View for Policy {
    type V = PolicyView;

    open spec fn view(&self) -> PolicyView {
        PolicyView {
            default: match self.default {
                Some(list) => Some(schemes_view(list)),
                None => None,
            },
            scopes: self.scopes@.map_values(|s: PolicyScope| s@),
            accept_empty: self.accept_empty,
        }
    }
}

/// The scope that an image resolved to.
#[derive(Clone, Copy, Debug, PartialEq, Eq, Structural)]
pub enum ResolvedScope {
    /// The scope at this position of the policy.
    Entry(usize),
    /// The default list.
    Default,
}

/// Why a policy does not allow an image.
#[derive(Clone, Debug, PartialEq, Eq)]
pub struct DenyReason {
    /// The scope that the image resolved to, if it resolved to any.
    pub scope: Option<ResolvedScope>,
    /// Position, in the list of the scope, of the mechanism that rejected
    /// the image.
    pub mechanism: Option<usize>,
    /// What went wrong.
    pub cause: Error,
}

/// The mathematical value of a [`DenyReason`].
pub struct DenyReasonView {
    pub scope: Option<ResolvedScope>,
    pub mechanism: Option<usize>,
    pub cause: ErrorView,
}

impl View for DenyReason {
    type V = DenyReasonView;

    open spec fn view(&self) -> DenyReasonView {
        DenyReasonView { scope: self.scope, mechanism: self.mechanism, cause: self.cause@ }
    }
}

/// The view of the outcome of a policy.
pub open spec fn deny_view(r: Result<(), DenyReason>) -> Result<(), DenyReasonView> {
    match r {
        Ok(_) => Ok(()),
        Err(e) => Err(e@),
    }
}

/// The text `scope` covers the image pulled as `reference`: it is the
/// reference in normal form, the name with its tag, the name, or a namespace
/// that the name lies in.
pub open spec fn scope_covers(scope: Seq<char>, reference: ReferenceView) -> bool {
    ||| scope == reference.whole()
    ||| scope == reference.tagged()
    ||| scope == reference.name()
    ||| is_prefix(scope.push('/'), reference.name())
}

/// Scope `i` of the policy binds the image.
pub open spec fn binds(
    scopes: Seq<ScopeView>,
    transport: Seq<char>,
    reference: ReferenceView,
    i: int,
) -> bool {
    0 <= i < scopes.len() && scopes[i].transport == transport && scope_covers(
        scopes[i].scope,
        reference,
    )
}

/// Scope `i` is the one that the image resolves to: it binds the image, no
/// binding scope is longer, and none of the same length stands before it.
pub open spec fn scope_resolves_to(
    scopes: Seq<ScopeView>,
    transport: Seq<char>,
    reference: ReferenceView,
    i: int,
) -> bool {
    &&& binds(scopes, transport, reference, i)
    &&& forall|j: int| #[trigger]
        binds(scopes, transport, reference, j) ==> scopes[j].scope.len() <= scopes[i].scope.len()
    &&& forall|j: int|
        j < i && #[trigger] binds(scopes, transport, reference, j) ==> scopes[j].scope.len()
            < scopes[i].scope.len()
}

/// The scope that the image resolves to, if any binds it.
pub open spec fn resolved_scope(
    scopes: Seq<ScopeView>,
    transport: Seq<char>,
    reference: ReferenceView,
) -> Option<int> {
    if exists|i: int| scope_resolves_to(scopes, transport, reference, i) {
        Some(choose|i: int| scope_resolves_to(scopes, transport, reference, i))
    } else {
        None
    }
}

/// No transport has the same scope twice.
pub open spec fn distinct_scopes(scopes: Seq<ScopeView>) -> bool {
    forall|i: int, j: int|
        0 <= i < scopes.len() && 0 <= j < scopes.len() && i != j ==> !((
        #[trigger] scopes[i]).transport == (#[trigger] scopes[j]).transport && scopes[i].scope
            == scopes[j].scope)
}

/// Mechanism `i` of the list rejects the image, and all before it allow it.
pub open spec fn first_rejecting(
    requirements: Seq<SignSchemeView>,
    image: ImageView,
    evidence: Seq<EvidenceView>,
    i: int,
) -> bool {
    &&& 0 <= i < requirements.len()
    &&& requirements[i].verdict(image, evidence[i]) is Err
    &&& forall|j: int|
        0 <= j < i ==> (#[trigger] requirements[j].verdict(image, evidence[j])) is Ok
}

/// Every mechanism of the list allows the image, each on its own evidence.
pub open spec fn all_accept(
    requirements: Seq<SignSchemeView>,
    image: ImageView,
    evidence: Seq<EvidenceView>,
) -> bool {
    forall|i: int|
        0 <= i < requirements.len() ==> (#[trigger] requirements[i].verdict(image, evidence[i]))
            is Ok
}

impl PolicyView {
    /// The scope that the image resolves to: the most specific scope that
    /// binds it, else the default list, else none.
    pub open spec fn scope_of(self, image: ImageView) -> Option<ResolvedScope> {
        match resolved_scope(self.scopes, docker_transport(), image.reference) {
            Some(i) => Some(ResolvedScope::Entry(i as usize)),
            None => match self.default {
                Some(_) => Some(ResolvedScope::Default),
                None => None,
            },
        }
    }

    /// The mechanisms that the image has to satisfy.
    pub open spec fn requirements(self, image: ImageView) -> Option<Seq<SignSchemeView>> {
        match resolved_scope(self.scopes, docker_transport(), image.reference) {
            Some(i) => Some(self.scopes[i].requirements),
            None => self.default,
        }
    }

    /// The outcome of the policy for an image, `evidence` holding what was
    /// gathered for each mechanism of the image's scope, in the order of the
    /// list.
    pub open spec fn verdict(self, image: ImageView, evidence: Seq<EvidenceView>) -> Result<
        (),
        DenyReasonView,
    > {
        let scope = self.scope_of(image);
        match self.requirements(image) {
            None => Err(
                DenyReasonView { scope: None, mechanism: None, cause: ErrorView::ScopeResolution },
            ),
            Some(requirements) => if requirements.len() == 0 {
                if self.accept_empty {
                    Ok(())
                } else {
                    Err(
                        DenyReasonView {
                            scope,
                            mechanism: None,
                            cause: ErrorView::Config(ConfigError::EmptyRequirements),
                        },
                    )
                }
            } else if evidence.len() != requirements.len() {
                Err(
                    DenyReasonView {
                        scope,
                        mechanism: None,
                        cause: ErrorView::Config(ConfigError::EvidenceMismatch),
                    },
                )
            } else if all_accept(requirements, image, evidence) {
                Ok(())
            } else {
                let i = choose|i: int| first_rejecting(requirements, image, evidence, i);
                Err(
                    DenyReasonView {
                        scope,
                        mechanism: Some(i as usize),
                        cause: requirements[i].verdict(image, evidence[i])->Err_0,
                    },
                )
            },
        }
    }
}

/// An image resolves to at most one scope.
pub proof fn lemma_scope_resolution_unique(
    scopes: Seq<ScopeView>,
    transport: Seq<char>,
    reference: ReferenceView,
    i: int,
    j: int,
)
    requires
        scope_resolves_to(scopes, transport, reference, i),
        scope_resolves_to(scopes, transport, reference, j),
    ensures
        i == j,
{
    if i < j {
        assert(binds(scopes, transport, reference, i));
    } else if j < i {
        assert(binds(scopes, transport, reference, j));
    }
}

/// Every text that covers an image is a prefix of its reference in normal
/// form.
pub proof fn lemma_cover_is_prefix(scope: Seq<char>, reference: ReferenceView)
    requires
        scope_covers(scope, reference),
    ensures
        is_prefix(scope, reference.whole()),
{
    reference.lemma_name_prefixes_whole();
    let whole = reference.whole();
    if scope == whole {
        assert(whole.subrange(0, whole.len() as int) =~= whole);
    } else if scope == reference.tagged() {
    } else if scope == reference.name() {
    } else {
        let slashed = scope.push('/');
        assert(is_prefix(scope, slashed)) by {
            assert(slashed.subrange(0, scope.len() as int) =~= scope);
        }
        crate::text::lemma_prefix_transitive(scope, slashed, reference.name());
        crate::text::lemma_prefix_transitive(scope, reference.name(), whole);
    }
}

/// The most specific scope wins, whatever the order of the scopes: where no
/// transport has a scope twice, a binding scope that no binding scope
/// outgrows is the one that the image resolves to.
pub proof fn lemma_most_specific_scope_wins(
    scopes: Seq<ScopeView>,
    transport: Seq<char>,
    reference: ReferenceView,
    i: int,
)
    requires
        distinct_scopes(scopes),
        binds(scopes, transport, reference, i),
        forall|j: int| #[trigger]
            binds(scopes, transport, reference, j) ==> scopes[j].scope.len()
                <= scopes[i].scope.len(),
    ensures
        scope_resolves_to(scopes, transport, reference, i),
        resolved_scope(scopes, transport, reference) == Some(i),
{
    assert forall|j: int|
        j < i && #[trigger] binds(scopes, transport, reference, j) implies scopes[j].scope.len()
        < scopes[i].scope.len() by {
        if scopes[j].scope.len() == scopes[i].scope.len() {
            lemma_cover_is_prefix(scopes[j].scope, reference);
            lemma_cover_is_prefix(scopes[i].scope, reference);
            lemma_prefixes_of_same(scopes[j].scope, scopes[i].scope, reference.whole());
        }
    }
    lemma_scope_resolution_unique(
        scopes,
        transport,
        reference,
        i,
        choose|k: int| scope_resolves_to(scopes, transport, reference, k),
    );
}

/// At most one mechanism is the first to reject.
pub proof fn lemma_first_rejecting_unique(
    requirements: Seq<SignSchemeView>,
    image: ImageView,
    evidence: Seq<EvidenceView>,
    i: int,
    j: int,
)
    requires
        first_rejecting(requirements, image, evidence, i),
        first_rejecting(requirements, image, evidence, j),
    ensures
        i == j,
{
    if i < j {
        assert(requirements[i].verdict(image, evidence[i]) is Ok);
    } else if j < i {
        assert(requirements[j].verdict(image, evidence[j]) is Ok);
    }
}

/// The first mechanism that rejects the image decides the outcome, whatever
/// the evidence of the mechanisms after it.
pub proof fn lemma_first_rejection_decides(
    policy: PolicyView,
    image: ImageView,
    evidence: Seq<EvidenceView>,
    i: int,
)
    requires
        policy.requirements(image) is Some,
        evidence.len() == policy.requirements(image)->0.len(),
        first_rejecting(policy.requirements(image)->0, image, evidence, i),
    ensures
        policy.verdict(image, evidence) == Err::<(), DenyReasonView>(
            DenyReasonView {
                scope: policy.scope_of(image),
                mechanism: Some(i as usize),
                cause: policy.requirements(image)->0[i].verdict(image, evidence[i])->Err_0,
            },
        ),
{
    let requirements = policy.requirements(image)->0;
    assert(!all_accept(requirements, image, evidence));
    lemma_first_rejecting_unique(
        requirements,
        image,
        evidence,
        i,
        choose|k: int| first_rejecting(requirements, image, evidence, k),
    );
}

/// An image is allowed exactly when every mechanism bound to its scope
/// allows it, provided that the scope binds a mechanism at all (or that the
/// policy lets an empty list pass) and that there is evidence for each.
pub proof fn lemma_allowed_iff_all_accept(
    policy: PolicyView,
    image: ImageView,
    evidence: Seq<EvidenceView>,
)
    requires
        policy.requirements(image) is Some,
        policy.requirements(image)->0.len() > 0 || policy.accept_empty,
        evidence.len() == policy.requirements(image)->0.len(),
    ensures
        policy.verdict(image, evidence) is Ok <==> all_accept(
            policy.requirements(image)->0,
            image,
            evidence,
        ),
{
}

/// An image that no scope covers, under a policy without a default, is
/// never allowed.
pub proof fn lemma_unresolved_scope_denies(
    policy: PolicyView,
    image: ImageView,
    evidence: Seq<EvidenceView>,
)
    requires
        policy.default is None,
        forall|i: int| !binds(policy.scopes, docker_transport(), image.reference, i),
    ensures
        policy.verdict(image, evidence) == Err::<(), DenyReasonView>(
            DenyReasonView { scope: None, mechanism: None, cause: ErrorView::ScopeResolution },
        ),
{
}

impl Policy {
    /// The scope that the image resolves to.
    pub fn resolve_scope(&self, image: &Image) -> (scope: Option<ResolvedScope>)
        ensures
            scope == self@.scope_of(image@),
            scope matches Some(ResolvedScope::Entry(i)) ==> i < self.scopes.len()
                && resolved_scope(self@.scopes, docker_transport(), image@.reference) == Some(
                i as int,
            ),
            scope matches Some(ResolvedScope::Default) ==> self.default is Some && resolved_scope(
                self@.scopes,
                docker_transport(),
                image@.reference,
            ) is None,
            scope is None ==> self.default is None && resolved_scope(
                self@.scopes,
                docker_transport(),
                image@.reference,
            ) is None,
    {
        let transport = image.transport_name();
        let whole = image.reference.whole();
        let whole = to_chars(whole.as_str());
        let tagged = image.reference.tagged();
        let tagged = to_chars(tagged.as_str());
        let name = image.reference.name();
        let name = to_chars(name.as_str());
        let ghost scopes = self@.scopes;
        let ghost reference = image@.reference;
        let mut candidates: Vec<Option<usize>> = Vec::new();
        let mut k: usize = 0;
        while k < self.scopes.len()
            invariant
                k <= self.scopes.len(),
                candidates.len() == k,
                scopes == self@.scopes,
                reference == image@.reference,
                transport@ == docker_transport(),
                whole@ == reference.whole(),
                tagged@ == reference.tagged(),
                name@ == reference.name(),
                forall|j: int|
                    0 <= j < k ==> (#[trigger] candidates@[j]) == (if binds(
                        scopes,
                        docker_transport(),
                        reference,
                        j,
                    ) {
                        Some(scopes[j].scope.len() as usize)
                    } else {
                        None
                    }),
                forall|j: int|
                    0 <= j < k ==> (#[trigger] scopes[j]).scope.len() <= usize::MAX,
            decreases self.scopes.len() - k,
        {
            let entry = &self.scopes[k];
            assert(scopes[k as int] == entry@);
            let text = to_chars(entry.scope.as_str());
            assert(scopes[k as int].scope.len() == text.len());
            let covered = chars_eq(&text, &whole) || chars_eq(&text, &tagged) || chars_eq(
                &text,
                &name,
            ) || starts_with_then(&name, &text, '/');
            if covered && str_eq(entry.transport.as_str(), transport) {
                candidates.push(Some(text.len()));
            } else {
                candidates.push(None);
            }
            k += 1;
        }
        let winner = pick_longest(&candidates);
        match winner {
            Some(i) => {
                proof {
                    assert(candidates@[i as int] is Some);
                    assert(binds(scopes, docker_transport(), reference, i as int));
                    assert forall|j: int| #[trigger]
                        binds(scopes, docker_transport(), reference, j) implies scopes[j].scope.len()
                        <= scopes[i as int].scope.len() by {
                        assert(candidates@[j] is Some);
                    }
                    assert forall|j: int|
                        j < i && #[trigger] binds(
                            scopes,
                            docker_transport(),
                            reference,
                            j,
                        ) implies scopes[j].scope.len() < scopes[i as int].scope.len() by {
                        assert(candidates@[j] is Some);
                    }
                    assert(scope_resolves_to(scopes, docker_transport(), reference, i as int));
                    lemma_scope_resolution_unique(
                        scopes,
                        docker_transport(),
                        reference,
                        i as int,
                        choose|j: int| scope_resolves_to(scopes, docker_transport(), reference, j),
                    );
                }
                Some(ResolvedScope::Entry(i))
            },
            None => {
                proof {
                    assert forall|j: int| !binds(scopes, docker_transport(), reference, j) by {
                        if 0 <= j < scopes.len() {
                            assert(candidates@[j] is None);
                        }
                    }
                }
                match &self.default {
                    Some(_) => Some(ResolvedScope::Default),
                    None => None,
                }
            },
        }
    }

    /// The mechanisms that the image has to satisfy, in the order in which
    /// the policy lists them.
    pub fn signature_schemes(&self, image: &Image) -> (r: Result<&Vec<SignSchemeEnum>, Error>)
        ensures
            match r {
                Ok(list) => self@.requirements(image@) == Some(schemes_view(*list)),
                Err(e) => e@ == ErrorView::ScopeResolution && self@.requirements(image@) is None,
            },
    {
        match self.resolve_scope(image) {
            Some(ResolvedScope::Entry(i)) => {
                assert(self@.scopes[i as int] == self.scopes@[i as int]@);
                Ok(&self.scopes[i].requirements)
            },
            Some(ResolvedScope::Default) => match &self.default {
                Some(list) => Ok(list),
                None => Err(Error::ScopeResolution),
            },
            None => Err(Error::ScopeResolution),
        }
    }

    /// Decides whether the policy allows the image. `evidence` holds what was
    /// gathered for each mechanism of the image's scope, in the order of the
    /// list. The first mechanism that rejects the image ends the evaluation.
    pub fn is_image_allowed(&self, image: &Image, evidence: &Vec<Evidence>) -> (r: Result<
        (),
        DenyReason,
    >)
        ensures
            deny_view(r) == self@.verdict(image@, evidence@.map_values(|e: Evidence| e@)),
    {
        let ghost evidence_view = evidence@.map_values(|e: Evidence| e@);
        let scope = self.resolve_scope(image);
        let requirements = match self.signature_schemes(image) {
            Ok(list) => list,
            Err(cause) => {
                return Err(DenyReason { scope: None, mechanism: None, cause });
            },
        };
        if requirements.len() == 0 {
            if self.accept_empty {
                return Ok(());
            }
            return Err(
                DenyReason {
                    scope,
                    mechanism: None,
                    cause: Error::Config(ConfigError::EmptyRequirements),
                },
            );
        }
        if evidence.len() != requirements.len() {
            return Err(
                DenyReason {
                    scope,
                    mechanism: None,
                    cause: Error::Config(ConfigError::EvidenceMismatch),
                },
            );
        }
        let ghost list = schemes_view(*requirements);
        let mut i: usize = 0;
        while i < requirements.len()
            invariant
                i <= requirements.len(),
                evidence.len() == requirements.len(),
                list == schemes_view(*requirements),
                evidence_view == evidence@.map_values(|e: Evidence| e@),
                self@.requirements(image@) == Some(list),
                scope == self@.scope_of(image@),
                list.len() > 0,
                forall|j: int|
                    0 <= j < i ==> (#[trigger] list[j].verdict(image@, evidence_view[j])) is Ok,
            decreases requirements.len() - i,
        {
            assert(list[i as int] == requirements@[i as int]@);
            assert(evidence_view[i as int] == evidence@[i as int]@);
            match requirements[i].allows_image(image, &evidence[i]) {
                Ok(_) => {},
                Err(cause) => {
                    proof {
                        assert(first_rejecting(list, image@, evidence_view, i as int));
                        lemma_first_rejecting_unique(
                            list,
                            image@,
                            evidence_view,
                            i as int,
                            choose|k: int| first_rejecting(list, image@, evidence_view, k),
                        );
                        assert(!all_accept(list, image@, evidence_view));
                    }
                    return Err(DenyReason { scope, mechanism: Some(i), cause });
                },
            }
            i += 1;
        }
        assert(all_accept(list, image@, evidence_view));
        Ok(())
    }
}

} // verus!
