//! Rules that say which identity a signature has to claim for an image.

use crate::error::ConfigError;
use crate::image::reference::{parsed_reference, Reference, ReferenceView};
use crate::text::{is_prefix, replace_leading, replace_prefix, str_eq};
use vstd::prelude::*;
use vstd::string::*;

verus! {

/// How the identity claimed inside a signature is held against the reference
/// that the image was pulled under.
#[derive(Clone, Debug, PartialEq, Eq)]
pub enum PolicyReqMatchType {
    /// The claimed identity is the pulled reference.
    MatchExact,
    /// The claimed identity names the pulled repository; tag and digest are
    /// free.
    MatchRepository,
    /// The claimed identity is one fixed reference, whatever was pulled.
    ExactReference { docker_reference: String },
    /// The claimed identity names one fixed repository, whatever was pulled.
    ExactRepository { docker_repository: String },
    /// The claimed identity is the pulled reference with a leading `prefix`
    /// replaced by `signed_prefix`.
    RemapIdentity { prefix: String, signed_prefix: String },
}

/// The mathematical value of a [`PolicyReqMatchType`].
pub enum MatchRule {
    MatchExact,
    MatchRepository,
    ExactReference { docker_reference: Seq<char> },
    ExactRepository { docker_repository: Seq<char> },
    RemapIdentity { prefix: Seq<char>, signed_prefix: Seq<char> },
}

impl View for PolicyReqMatchType {
    type V = MatchRule;

    open spec fn view(&self) -> MatchRule {
        match *self {
            PolicyReqMatchType::MatchExact => MatchRule::MatchExact,
            PolicyReqMatchType::MatchRepository => MatchRule::MatchRepository,
            PolicyReqMatchType::ExactReference { docker_reference } => MatchRule::ExactReference {
                docker_reference: docker_reference@,
            },
            PolicyReqMatchType::ExactRepository {
                docker_repository,
            } => MatchRule::ExactRepository { docker_repository: docker_repository@ },
            PolicyReqMatchType::RemapIdentity { prefix, signed_prefix } => MatchRule::RemapIdentity {
                prefix: prefix@,
                signed_prefix: signed_prefix@,
            },
        }
    }
}

/// The rule in force where a configuration names none.
pub open spec fn default_rule() -> MatchRule {
    MatchRule::MatchExact
}

/// The rule that an optional configuration entry stands for.
pub open spec fn rule_or_default(rule: Option<MatchRule>) -> MatchRule {
    match rule {
        Some(r) => r,
        None => default_rule(),
    }
}

impl MatchRule {
    /// The reference that the rule is configured with, parsed; `None` for a
    /// rule that names no reference, and for one whose reference does not
    /// parse.
    pub open spec fn configured(self) -> Option<ReferenceView> {
        match self {
            MatchRule::ExactReference { docker_reference } => parsed_reference(docker_reference),
            _ => None,
        }
    }

    /// The rule can be applied: a reference it names parses.
    pub open spec fn usable(self) -> bool {
        self is ExactReference ==> self.configured() is Some
    }

    /// Whether the rule accepts a claimed identity for an image pulled as
    /// `pulled`. `claimed` is the identity as the signature writes it,
    /// `parsed` the same identity, parsed; `configured` is the parsed
    /// reference of an `ExactReference` rule. A remapped identity is
    /// compared letter for letter. Under every other rule the references
    /// are compared in normal form, and an identity that does not parse is
    /// not accepted.
    pub open spec fn accepts(
        self,
        pulled: ReferenceView,
        claimed: Seq<char>,
        parsed: Option<ReferenceView>,
        configured: Option<ReferenceView>,
    ) -> bool {
        match self {
            MatchRule::RemapIdentity { prefix, signed_prefix } => claimed == replace_prefix(
                pulled.whole(),
                prefix,
                signed_prefix,
            ),
            MatchRule::MatchExact => parsed matches Some(c) && c.whole() == pulled.whole(),
            MatchRule::MatchRepository => parsed matches Some(c) && c.name() == pulled.name(),
            MatchRule::ExactReference { .. } => parsed matches Some(c) && configured matches Some(r)
                && c.whole() == r.whole(),
            MatchRule::ExactRepository { docker_repository } => parsed matches Some(c) && c.name()
                == docker_repository,
        }
    }

    /// Whether the rule accepts the identity that a signature claims in
    /// `claimed`, a reference as text.
    pub open spec fn accepts_text(self, pulled: ReferenceView, claimed: Seq<char>) -> bool {
        self.accepts(pulled, claimed, parsed_reference(claimed), self.configured())
    }
}

/// Exact match: a claimed identity is accepted exactly when it parses and
/// its normal form is that of the pulled reference. This is also what holds
/// where no rule is configured.
pub proof fn lemma_exact_match(pulled: ReferenceView, claimed: Seq<char>)
    ensures
        rule_or_default(None) == MatchRule::MatchExact,
        MatchRule::MatchExact.accepts_text(pulled, claimed) <==> (parsed_reference(
            claimed,
        ) matches Some(c) && c.whole() == pulled.whole()),
        rule_or_default(None).accepts_text(pulled, claimed) == MatchRule::MatchExact.accepts_text(
            pulled,
            claimed,
        ),
{
}

/// Remapped identity: a claimed identity is accepted exactly when it is,
/// letter for letter, the pulled reference in normal form with a leading
/// `prefix` replaced by `signed_prefix`.
pub proof fn lemma_remap_identity(
    prefix: Seq<char>,
    signed_prefix: Seq<char>,
    pulled: ReferenceView,
    claimed: Seq<char>,
)
    ensures
        (MatchRule::RemapIdentity { prefix, signed_prefix }).accepts_text(pulled, claimed)
            <==> claimed == replace_prefix(pulled.whole(), prefix, signed_prefix),
        !is_prefix(prefix, pulled.whole()) ==> ((MatchRule::RemapIdentity {
            prefix,
            signed_prefix,
        }).accepts_text(pulled, claimed) <==> claimed == pulled.whole()),
{
}

impl PolicyReqMatchType {
    /// The rule in force where a configuration names none: exact match.
    pub fn default_match_policy() -> (rule: PolicyReqMatchType)
        ensures
            rule@ == default_rule(),
    {
        PolicyReqMatchType::MatchExact
    }

    /// The reference that an `ExactReference` rule names, parsed.
    pub fn configured_reference(&self) -> (r: Option<Reference>)
        ensures
            match r {
                Some(reference) => self@.configured() == Some(reference@),
                None => self@.configured() is None,
            },
    {
        match self {
            PolicyReqMatchType::ExactReference { docker_reference } => Reference::parse_opt(
                docker_reference.as_str(),
            ),
            _ => None,
        }
    }

    /// Refuses a rule that cannot be applied.
    pub fn check(&self) -> (r: Result<(), ConfigError>)
        ensures
            match r {
                Ok(_) => self@.usable(),
                Err(e) => e == ConfigError::InvalidSignedIdentity && !self@.usable(),
            },
    {
        match self {
            PolicyReqMatchType::ExactReference { docker_reference } => {
                match Reference::parse_opt(docker_reference.as_str()) {
                    Some(_) => Ok(()),
                    None => Err(ConfigError::InvalidSignedIdentity),
                }
            },
            _ => Ok(()),
        }
    }

    /// Applies the rule to references that have been parsed already:
    /// `parsed` is the claimed identity `claimed`, parsed, and `configured`
    /// the parsed reference of an `ExactReference` rule.
    pub fn matches_parsed(
        &self,
        pulled: &Reference,
        claimed: &str,
        parsed: &Option<Reference>,
        configured: &Option<Reference>,
    ) -> (accepted: bool)
        ensures
            accepted == self@.accepts(
                pulled@,
                claimed@,
                match *parsed {
                    Some(c) => Some(c@),
                    None => None,
                },
                match *configured {
                    Some(c) => Some(c@),
                    None => None,
                },
            ),
    {
        match self {
            PolicyReqMatchType::RemapIdentity { prefix, signed_prefix } => {
                let theirs = pulled.whole();
                let remapped = replace_leading(
                    theirs.as_str(),
                    prefix.as_str(),
                    signed_prefix.as_str(),
                );
                str_eq(claimed, remapped.as_str())
            },
            PolicyReqMatchType::MatchExact => match parsed {
                Some(c) => {
                    let mine = c.whole();
                    let theirs = pulled.whole();
                    str_eq(mine.as_str(), theirs.as_str())
                },
                None => false,
            },
            PolicyReqMatchType::MatchRepository => match parsed {
                Some(c) => {
                    let mine = c.name();
                    let theirs = pulled.name();
                    str_eq(mine.as_str(), theirs.as_str())
                },
                None => false,
            },
            PolicyReqMatchType::ExactReference { .. } => match (parsed, configured) {
                (Some(c), Some(r)) => {
                    let mine = c.whole();
                    let fixed = r.whole();
                    str_eq(mine.as_str(), fixed.as_str())
                },
                _ => false,
            },
            PolicyReqMatchType::ExactRepository { docker_repository } => match parsed {
                Some(c) => {
                    let mine = c.name();
                    str_eq(mine.as_str(), docker_repository.as_str())
                },
                None => false,
            },
        }
    }

    /// Decides whether the identity claimed in `claimed` is acceptable for an
    /// image pulled as `pulled`.
    pub fn matches_docker_reference(&self, pulled: &Reference, claimed: &str) -> (accepted: bool)
        ensures
            accepted == self@.accepts_text(pulled@, claimed@),
    {
        let claimed_ref = Reference::parse_opt(claimed);
        let configured = self.configured_reference();
        self.matches_parsed(pulled, claimed, &claimed_ref, &configured)
    }
}

} // verus!
