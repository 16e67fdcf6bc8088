//! The image under judgement: its reference and the digest of its manifest.

pub mod digest;
pub mod reference;

use crate::error::ImageError;
use crate::image::digest::{digest_parts, Digest, DigestView};
use crate::image::reference::{Reference, ReferenceView};
use vstd::prelude::*;
use vstd::string::*;

verus! {

/// An image as the caller is about to pull it.
#[derive(Clone, Debug, PartialEq, Eq)]
pub struct Image {
    /// The identity the image is pulled under.
    pub reference: Reference,
    /// The digest of the pulled manifest, once it is known.
    pub manifest_digest: Option<Digest>,
}

/// The mathematical value of an [`Image`].
pub struct ImageView {
    pub reference: ReferenceView,
    pub manifest_digest: Option<DigestView>,
}

impl View for Image {
    type V = ImageView;

    open spec fn view(&self) -> ImageView {
        ImageView {
            reference: self.reference@,
            manifest_digest: match self.manifest_digest {
                Some(d) => Some(d@),
                None => None,
            },
        }
    }
}

impl ImageView {
    /// The digest that verification goes by: the one that was set; else the
    /// one embedded in the reference, provided it is a digest string.
    pub open spec fn digest(self) -> Result<DigestView, ImageError> {
        match self.manifest_digest {
            Some(d) => Ok(d),
            None => match self.reference.digest {
                Some(text) => match digest_parts(text) {
                    Some(d) => Ok(d),
                    None => Err(ImageError::InvalidDigest),
                },
                None => Err(ImageError::MissingDigest),
            },
        }
    }

    /// The digest that verification goes by, as it is written.
    pub open spec fn digest_text(self) -> Option<Seq<char>> {
        match self.digest() {
            Ok(d) => Some(d.text()),
            Err(_) => None,
        }
    }
}

impl Image {
    /// An image known by its reference alone.
    pub fn default_with_reference(reference: Reference) -> (image: Image)
        ensures
            image.reference == reference,
            image.manifest_digest is None,
    {
        Image { reference, manifest_digest: None }
    }

    /// Records the digest of the pulled manifest. A string that is no digest
    /// leaves the image as it was.
    pub fn set_manifest_digest(&mut self, digest: &str) -> (r: Result<(), ImageError>)
        ensures
            final(self).reference == old(self).reference,
            match r {
                Ok(_) => digest_parts(digest@) is Some && final(self)@.manifest_digest
                    == digest_parts(digest@) && final(self)@.digest_text() == Some(digest@),
                Err(e) => e == ImageError::InvalidDigest && digest_parts(digest@) is None
                    && *final(self) == *old(self),
            },
    {
        match Digest::parse(digest) {
            Ok(d) => {
                self.manifest_digest = Some(d);
                Ok(())
            },
            Err(e) => Err(e),
        }
    }

    /// The transport that images of this kind are pulled over.
    pub fn transport_name(&self) -> (name: &'static str)
        ensures
            name@ == docker_transport(),
    {
        "docker"
    }

    /// The digest that verification goes by: the one that was set, else the
    /// one embedded in the reference.
    pub fn resolved_digest(&self) -> (r: Result<Digest, ImageError>)
        ensures
            match r {
                Ok(d) => self@.digest() == Ok::<DigestView, ImageError>(d@),
                Err(e) => self@.digest() == Err::<DigestView, ImageError>(e),
            },
    {
        match &self.manifest_digest {
            Some(d) => Ok(d.duplicate()),
            None => match &self.reference.digest {
                Some(d) => Digest::parse(d.as_str()),
                None => Err(ImageError::MissingDigest),
            },
        }
    }
}

/// The name of the one transport known so far.
pub open spec fn docker_transport() -> Seq<char> {
    "docker"@
}

} // verus!
