//! The pull identity of an image: registry, repository, tag and digest.

use crate::error::ImageError;
use crate::text::opt_view;
use vstd::prelude::*;
use vstd::string::*;

verus! {

/// The pull identity of an image.
#[derive(Clone, Debug, PartialEq, Eq)]
pub struct Reference {
    /// Host (and port) of the registry; empty where there is none.
    pub registry: String,
    /// Path of the repository inside the registry.
    pub repository: String,
    /// Tag, if the reference carries one.
    pub tag: Option<String>,
    /// Embedded digest, if the reference carries one.
    pub digest: Option<String>,
}

/// The mathematical value of a [`Reference`].
pub struct ReferenceView {
    pub registry: Seq<char>,
    pub repository: Seq<char>,
    pub tag: Option<Seq<char>>,
    pub digest: Option<Seq<char>>,
}

impl View for Reference {
    type V = ReferenceView;

    open spec fn view(&self) -> ReferenceView {
        ReferenceView {
            registry: self.registry@,
            repository: self.repository@,
            tag: opt_view(self.tag),
            digest: opt_view(self.digest),
        }
    }
}

impl ReferenceView {
    /// Registry and repository, joined by `/`: the image's name without tag
    /// or digest.
    pub open spec fn name(self) -> Seq<char> {
        if self.registry.len() == 0 {
            self.repository
        } else {
            self.registry + seq!['/'] + self.repository
        }
    }

    /// The name followed by `:tag` where there is a tag.
    pub open spec fn tagged(self) -> Seq<char> {
        match self.tag {
            Some(t) => if self.name().len() == 0 {
                t
            } else {
                self.name() + seq![':'] + t
            },
            None => self.name(),
        }
    }

    /// The normal form of the reference: name, then `:tag`, then `@digest`.
    pub open spec fn whole(self) -> Seq<char> {
        match self.digest {
            Some(d) => if self.tagged().len() == 0 {
                d
            } else {
                self.tagged() + seq!['@'] + d
            },
            None => self.tagged(),
        }
    }

    /// The name is where the tagged name starts, and the tagged name is
    /// where the normal form starts.
    pub proof fn lemma_name_prefixes_whole(self)
        ensures
            crate::text::is_prefix(self.name(), self.tagged()),
            crate::text::is_prefix(self.tagged(), self.whole()),
            crate::text::is_prefix(self.name(), self.whole()),
    {
        let n = self.name();
        let t = self.tagged();
        assert(crate::text::is_prefix(n, t)) by {
            assert(t.subrange(0, n.len() as int) =~= n);
        }
        assert(crate::text::is_prefix(t, self.whole())) by {
            assert(self.whole().subrange(0, t.len() as int) =~= t);
        }
        crate::text::lemma_prefix_transitive(n, t, self.whole());
    }
}

/// Declares the error of `oci_distribution`'s reference parser, so that it can
/// be carried out of the call.
#[verifier::external_type_specification]
#[verifier::external_body]
pub struct ExReferenceParseError(oci_distribution::ParseError);

/// What `oci_distribution`'s reference parser makes of `text`: the four parts
/// of the reference, or `None` where it refuses the text.
pub uninterp spec fn parsed_reference(text: Seq<char>) -> Option<ReferenceView>;

/// Calls `<oci_distribution::Reference as TryFrom<&str>>::try_from` and moves
/// the four parts of the parsed reference into a [`Reference`]. The contract
/// only names the parser's result: it says nothing of which texts parse, nor
/// into what.
#[verifier::external_body]
fn parse_with_oci(text: &str) -> (r: Result<Reference, oci_distribution::ParseError>)
    ensures
        match r {
            Ok(reference) => parsed_reference(text@) == Some(reference@),
            Err(_) => parsed_reference(text@) is None,
        },
{
    let parsed = oci_distribution::Reference::try_from(text)?;
    Ok(
        Reference {
            registry: parsed.registry().to_string(),
            repository: parsed.repository().to_string(),
            tag: parsed.tag().map(|t| t.to_string()),
            digest: parsed.digest().map(|d| d.to_string()),
        },
    )
}

impl Reference {
    /// Parses an image reference, expanding defaults (registry, tag) as the
    /// reference grammar prescribes.
    pub fn parse(text: &str) -> (r: Result<Reference, ImageError>)
        ensures
            match r {
                Ok(reference) => parsed_reference(text@) == Some(reference@),
                Err(e) => e == ImageError::InvalidReference && parsed_reference(text@) is None,
            },
    {
        match parse_with_oci(text) {
            Ok(reference) => Ok(reference),
            Err(_) => Err(ImageError::InvalidReference),
        }
    }

    /// Parses an image reference where only acceptance matters downstream.
    pub fn parse_opt(text: &str) -> (r: Option<Reference>)
        ensures
            match r {
                Some(reference) => parsed_reference(text@) == Some(reference@),
                None => parsed_reference(text@) is None,
            },
    {
        match parse_with_oci(text) {
            Ok(reference) => Some(reference),
            Err(_) => None,
        }
    }

    /// The name of the registry.
    pub fn registry(&self) -> (s: &str)
        ensures
            s@ == self@.registry,
    {
        self.registry.as_str()
    }

    /// The path of the repository.
    pub fn repository(&self) -> (s: &str)
        ensures
            s@ == self@.repository,
    {
        self.repository.as_str()
    }

    /// The tag, if present.
    pub fn tag(&self) -> (t: Option<&str>)
        ensures
            match t {
                Some(s) => self@.tag == Some(s@),
                None => self@.tag is None,
            },
    {
        match &self.tag {
            Some(t) => Some(t.as_str()),
            None => None,
        }
    }

    /// The embedded digest, if present.
    pub fn digest(&self) -> (d: Option<&str>)
        ensures
            match d {
                Some(s) => self@.digest == Some(s@),
                None => self@.digest is None,
            },
    {
        match &self.digest {
            Some(d) => Some(d.as_str()),
            None => None,
        }
    }

    /// Registry and repository joined by `/`.
    pub fn name(&self) -> (s: String)
        ensures
            s@ == self@.name(),
    {
        if self.registry.as_str().unicode_len() == 0 {
            self.repository.clone()
        } else {
            proof {
                reveal_strlit("/");
            }
            let mut s = self.registry.clone();
            s.append("/");
            s.append(self.repository.as_str());
            assert(s@ =~= self@.registry + seq!['/'] + self@.repository);
            s
        }
    }

    /// The name, followed by `:tag` where there is a tag.
    pub fn tagged(&self) -> (s: String)
        ensures
            s@ == self@.tagged(),
    {
        proof {
            reveal_strlit(":");
        }
        let mut s = self.name();
        match &self.tag {
            Some(t) => {
                if s.as_str().unicode_len() != 0 {
                    s.append(":");
                }
                s.append(t.as_str());
            },
            None => {},
        }
        assert(s@ =~= self@.tagged());
        s
    }

    /// The reference in normal form.
    pub fn whole(&self) -> (s: String)
        ensures
            s@ == self@.whole(),
    {
        proof {
            reveal_strlit("@");
        }
        let mut s = self.tagged();
        match &self.digest {
            Some(d) => {
                if s.as_str().unicode_len() != 0 {
                    s.append("@");
                }
                s.append(d.as_str());
            },
            None => {},
        }
        assert(s@ =~= self@.whole());
        s
    }
}

} // verus!
